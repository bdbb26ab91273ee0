use tugraph::db::release;
use tugraph::engine::{
    ask_flag, ask_text, check, request, tell, Arg, Engine, Handle, Kind, Op, Request,
};
use tugraph::keyed::last_occurrences;
use tugraph::script::{Answer, Script};
use tugraph::text::{are_c_safe, copy_texts, is_c_safe, owned_texts, same_text};

fn galaxy() -> Handle {
    Handle {
        kind: Kind::Galaxy,
        id: 1,
    }
}

#[test]
fn a_script_gives_its_answers_in_order_and_keeps_the_requests() {
    let mut script = Script::new(vec![
        Answer::Flag(true),
        Answer::Text("t".to_string()),
        Answer::Failure("IO Error.".to_string()),
    ]);
    assert_eq!(script.left(), 3);
    assert_eq!(
        script.call_flag(request(galaxy(), Op::DeleteGraph, vec![Arg::Text("g".into())])),
        Ok(true)
    );
    assert_eq!(
        script.call_text(request(galaxy(), Op::GetDescription, vec![])),
        Ok("t".to_string())
    );
    assert_eq!(
        script.call_size(request(galaxy(), Op::GetMaxSize, vec![])),
        Err("IO Error.".to_string())
    );
    assert_eq!(script.left(), 0);
    assert_eq!(
        script.requests(),
        &vec![
            Request {
                target: galaxy(),
                op: Op::DeleteGraph,
                args: vec![Arg::Text("g".into())]
            },
            Request {
                target: galaxy(),
                op: Op::GetDescription,
                args: vec![]
            },
            Request {
                target: galaxy(),
                op: Op::GetMaxSize,
                args: vec![]
            },
        ]
    );
}

#[test]
fn a_script_without_a_fitting_answer_fails() {
    let mut script = Script::new(vec![Answer::Flag(true), Answer::Text("t".to_string())]);
    assert_eq!(
        script.call_size(request(galaxy(), Op::GetMaxSize, vec![])),
        Err("The script has no answer of this kind.".to_string())
    );
    assert_eq!(script.left(), 1);
    assert!(!script.probe(request(galaxy(), Op::IsValid, vec![])));
    assert_eq!(script.left(), 0);
    assert_eq!(
        script.call_unit(request(galaxy(), Op::Flush, vec![])),
        Err("The script has no answer of this kind.".to_string())
    );
    script.signal(request(galaxy(), Op::Destroy, vec![]));
    assert_eq!(script.requests().len(), 4);
}

#[test]
fn asking_makes_an_error_of_the_failure_message() {
    let mut script = Script::new(vec![
        Answer::Failure("Unauthorized.".to_string()),
        Answer::Text("x".to_string()),
        Answer::Probe(true),
        Answer::Unit,
    ]);
    let e = ask_flag(&mut script, galaxy(), Op::CreateUser, vec![]).unwrap_err();
    assert_eq!(e.msg(), "Unauthorized.");
    assert_eq!(
        ask_text(&mut script, galaxy(), Op::GetDescription, vec![]),
        Ok("x".to_string())
    );
    assert!(check(&mut script, galaxy(), Op::IsValid, vec![]));
    tell(&mut script, galaxy(), Op::Destroy, vec![]);
    assert_eq!(release(&mut script, galaxy(), Op::Close), Ok(()));
    let ops: Vec<_> = script.requests().iter().map(|r| r.op).collect();
    assert_eq!(
        ops,
        vec![
            Op::CreateUser,
            Op::GetDescription,
            Op::IsValid,
            Op::Destroy,
            Op::Close,
            Op::Destroy
        ]
    );
}

#[test]
fn texts_with_a_nul_cannot_be_sent() {
    assert!(is_c_safe("foo"));
    assert!(is_c_safe(""));
    assert!(!is_c_safe("foo\0bar"));
    assert!(!is_c_safe("\0"));
    assert!(is_c_safe("gr\u{fc}\u{df}e"));
    assert!(are_c_safe(&["a", "b"]));
    assert!(are_c_safe(&[]));
    assert!(!are_c_safe(&["a", "b\0"]));
    assert!(same_text("abc", "abc"));
    assert!(!same_text("abc", "abd"));
    assert!(!same_text("abc", "ab"));
    assert_eq!(owned_texts(&["a", "b"]), vec!["a".to_string(), "b".to_string()]);
    assert_eq!(copy_texts(&vec!["x".to_string()]), vec!["x".to_string()]);
}

#[test]
fn only_the_last_of_each_name_counts() {
    let names: Vec<String> = ["a", "b", "a", "c", "b", "d"]
        .iter()
        .map(|s| s.to_string())
        .collect();
    assert_eq!(last_occurrences(&names, 6), vec![2, 3, 4, 5]);
    assert_eq!(last_occurrences(&names, 4), vec![1, 2, 3]);
    assert_eq!(last_occurrences(&names, 1), vec![0]);
    assert_eq!(last_occurrences(&names, 0), Vec::<usize>::new());
}
