use pigeons::plan::{next_step, PlanNext};

type Outcome = Result<(), &'static str>;

fn next(left: &mut Vec<char>, outcome: Outcome) -> PlanNext<char, &'static str> {
    next_step(left, outcome)
}

#[test]
fn steps_that_succeed_are_taken_in_order() {
    let mut left = vec!['a', 'b', 'c'];
    assert_eq!(next(&mut left, Ok(())), PlanNext::Take('a'));
    assert_eq!(next(&mut left, Ok(())), PlanNext::Take('b'));
    assert_eq!(left, vec!['c']);
    assert_eq!(next(&mut left, Ok(())), PlanNext::Take('c'));
    assert_eq!(next(&mut left, Ok(())), PlanNext::Done);
    assert!(left.is_empty());
}

#[test]
fn a_step_that_fails_ends_the_plan() {
    let mut left = vec!['a', 'b', 'c'];
    assert_eq!(next(&mut left, Ok(())), PlanNext::Take('a'));
    assert_eq!(next(&mut left, Err("broken")), PlanNext::Fail("broken"));
    assert_eq!(left, vec!['b', 'c']);
    let mut none = Vec::new();
    assert_eq!(next(&mut none, Err("last")), PlanNext::Fail("last"));
}

#[test]
fn an_empty_plan_is_done_at_once() {
    assert_eq!(next(&mut Vec::new(), Ok(())), PlanNext::Done);
}
