use stepgate::atoms::Atom;
use stepgate::atoms::Echo as EchoAtom;
use stepgate::steps::finalizers::Echo as EchoFinalizer;
use stepgate::steps::finalizers::Finalizer;
use stepgate::steps::fold_decision;
use stepgate::steps::initializers::Echo as EchoInitializer;
use stepgate::steps::initializers::Failing;
use stepgate::steps::initializers::FlowControl;
use stepgate::steps::initializers::Initializer;
use stepgate::steps::Step;

#[test]
fn echo_initializer_reports_its_boolean() {
    assert_eq!(Ok(true), EchoInitializer(true).initialize());
    assert_eq!(Ok(false), EchoInitializer(false).initialize());
}

#[test]
fn failing_initializer_reports_its_cause() {
    let outcome = EchoInitializer(true).initialize();
    assert!(outcome.is_ok());

    let outcome = Failing.initialize();
    match outcome {
        Ok(_) => panic!("a failing guard must not report a boolean"),
        Err(err) => assert_eq!("this guard always fails", err.message().as_str()),
    }
}

#[test]
fn fold_decision_allows_only_all_clear_outcomes() {
    assert_eq!(true, fold_decision(&vec![]));
    assert_eq!(true, fold_decision(&vec![Some(false)]));
    assert_eq!(true, fold_decision(&vec![Some(false), Some(false)]));
    assert_eq!(false, fold_decision(&vec![Some(true)]));
    assert_eq!(false, fold_decision(&vec![None]));
    assert_eq!(false, fold_decision(&vec![Some(false), Some(true), Some(false)]));
    assert_eq!(false, fold_decision(&vec![None, Some(false)]));
}

#[test]
fn echo_atom_labels_itself() {
    let atom = EchoAtom("hello-world");
    assert_eq!("hello-world", atom.label().as_str());
}

#[test]
fn finalizers_are_carried_without_affecting_the_run_decision() {
    let step = Step {
        atom: Box::new(EchoAtom("hello-world")),
        initializers: vec![FlowControl::SkipIf(Box::new(EchoInitializer(false)))],
        finalizers: vec![
            stepgate::steps::finalizers::FlowControl::SkipIf(Box::new(EchoFinalizer(true))),
        ],
    };

    assert_eq!(true, step.do_initializers_allow_us_to_run());
    assert_eq!(1, step.finalizers.len());
}

#[test]
fn echo_finalizer_reports_its_boolean() {
    assert_eq!(Ok(true), EchoFinalizer(true).finalize());
    assert_eq!(Ok(false), EchoFinalizer(false).finalize());
}
