use agent_core::template::FEW_SHOT_TEMPLATE;
use agent_core::text::{extract_final_answer, last_line};

#[test]
fn the_template_holds_four_worked_questions() {
    assert!(FEW_SHOT_TEMPLATE.starts_with(
        "Question: Who lived longer, Muhammad Ali or Alan Turing?\n\n        Are follow up questions needed here: Yes.\n"
    ));
    assert!(FEW_SHOT_TEMPLATE.ends_with("        So the final answer is: No\n"));
    assert_eq!(FEW_SHOT_TEMPLATE.matches("Question: ").count(), 4);
    assert_eq!(FEW_SHOT_TEMPLATE.matches("Are follow up questions needed here: Yes.").count(), 4);
    assert_eq!(FEW_SHOT_TEMPLATE.matches("So the final answer is: ").count(), 4);
    assert_eq!(FEW_SHOT_TEMPLATE.matches("Follow up: ").count(), 10);
    assert_eq!(FEW_SHOT_TEMPLATE.matches("Intermediate answer: ").count(), 6);
    assert_eq!(FEW_SHOT_TEMPLATE.matches("Intermediate Answer: ").count(), 4);
    assert_eq!(FEW_SHOT_TEMPLATE.lines().count(), 39);
}

#[test]
fn the_template_ends_in_a_final_answer() {
    assert_eq!(last_line(FEW_SHOT_TEMPLATE), "        So the final answer is: No");
    assert_eq!(extract_final_answer(FEW_SHOT_TEMPLATE), "No");
}
