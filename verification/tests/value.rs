use inter_struct::mapping::Action;
use inter_struct::mode::Mode;
use inter_struct::value::{apply, FieldValue};

const MODES: [Mode; 6] =
    [Mode::Into, Mode::IntoDefault, Mode::Merge, Mode::MergeSoft, Mode::MergeRef, Mode::MergeRefSoft];

const HARD: [Mode; 4] = [Mode::Into, Mode::IntoDefault, Mode::Merge, Mode::MergeRef];

const SOFT: [Mode; 2] = [Mode::MergeSoft, Mode::MergeRefSoft];

const ACTIONS: [Action; 6] =
    [Action::Assign, Action::Wrap, Action::PassThrough, Action::ConditionalUnwrap, Action::NoOp, Action::Skip];

fn plain(value: u8) -> FieldValue<u8> {
    FieldValue::Plain(value)
}

fn some(value: FieldValue<u8>) -> FieldValue<u8> {
    FieldValue::Present(Box::new(value))
}

fn none() -> FieldValue<u8> {
    FieldValue::Absent
}

fn values() -> Vec<FieldValue<u8>> {
    vec![plain(1), plain(2), none(), some(plain(1)), some(plain(2)), some(none()), some(some(plain(1)))]
}

fn copy(value: &FieldValue<u8>) -> FieldValue<u8> {
    match value {
        FieldValue::Plain(value) => FieldValue::Plain(*value),
        FieldValue::Absent => FieldValue::Absent,
        FieldValue::Present(inner) => FieldValue::Present(Box::new(copy(inner))),
    }
}

#[test]
fn hard_modes_carry_the_action_out() {
    for mode in HARD {
        assert_eq!(apply(mode, Action::Assign, plain(1), plain(2)), plain(1));
        assert_eq!(apply(mode, Action::PassThrough, some(plain(1)), some(plain(2))), some(plain(1)));
        assert_eq!(apply(mode, Action::PassThrough, none(), some(plain(2))), none());
        assert_eq!(apply(mode, Action::Wrap, plain(1), some(plain(2))), some(plain(1)));
        assert_eq!(apply(mode, Action::Wrap, plain(1), none()), some(plain(1)));
        assert_eq!(apply(mode, Action::Wrap, none(), some(some(plain(2)))), some(none()));
        assert_eq!(apply(mode, Action::ConditionalUnwrap, some(plain(1)), plain(2)), plain(1));
        assert_eq!(apply(mode, Action::ConditionalUnwrap, none(), plain(2)), plain(2));
        assert_eq!(apply(mode, Action::ConditionalUnwrap, some(some(plain(1))), some(plain(2))), some(plain(1)));
        assert_eq!(apply(mode, Action::ConditionalUnwrap, some(none()), some(plain(2))), none());
        assert_eq!(apply(mode, Action::NoOp, plain(1), plain(2)), plain(2));
        assert_eq!(apply(mode, Action::Skip, plain(1), plain(2)), plain(2));
    }
}

#[test]
fn soft_modes_fill_what_is_absent() {
    for mode in SOFT {
        assert_eq!(apply(mode, Action::Wrap, plain(1), none()), some(plain(1)));
        assert_eq!(apply(mode, Action::PassThrough, some(plain(1)), none()), some(plain(1)));
        assert_eq!(apply(mode, Action::PassThrough, none(), none()), none());
        assert_eq!(apply(mode, Action::ConditionalUnwrap, some(some(plain(1))), none()), some(plain(1)));
        assert_eq!(apply(mode, Action::ConditionalUnwrap, some(none()), none()), none());
        assert_eq!(apply(mode, Action::ConditionalUnwrap, none(), none()), none());
        assert_eq!(apply(mode, Action::NoOp, plain(1), none()), none());
    }
}

#[test]
fn soft_modes_never_overwrite() {
    for mode in SOFT {
        for action in ACTIONS {
            for source in values() {
                for target in values() {
                    if target == none() {
                        continue;
                    }
                    assert_eq!(apply(mode, action, source_copy(&source), copy(&target)), target);
                }
            }
        }
    }
}

fn source_copy(value: &FieldValue<u8>) -> FieldValue<u8> {
    copy(value)
}

#[test]
fn applying_twice_is_applying_once() {
    for mode in MODES {
        for action in ACTIONS {
            for source in values() {
                for target in values() {
                    let once = apply(mode, action, copy(&source), copy(&target));
                    let twice = apply(mode, action, copy(&source), copy(&once));
                    assert_eq!(twice, once, "{:?} {:?} {:?} {:?}", mode, action, source, target);
                }
            }
        }
    }
}

#[test]
fn skipped_field_keeps_the_default() {
    for mode in MODES {
        for source in values() {
            assert_eq!(apply(mode, Action::Skip, source, plain(0)), plain(0));
        }
    }
}
