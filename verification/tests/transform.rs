//! The transformation pipeline on concrete shapes: eligibility
//! rejections with their literal diagnostics, and the structure of the
//! synthesized sibling function.

use auto_vec::auto_vec;
use auto_vec::Emission;
use auto_vec::FunctionShape;
use auto_vec::GenericParam;
use auto_vec::Parameter;
use auto_vec::synthesize::CallTarget;
use auto_vec::synthesize::mismatch_message;
use auto_vec::synthesize::vec_name;
use auto_vec::synthesize::wrap_type;

fn typed(pattern: &str, ty: &str) -> Parameter {
    Parameter::Typed { pattern: pattern.to_string(), ty: ty.to_string() }
}

fn shape_of(
    name: &str,
    parameters: Vec<Parameter>,
    return_type: Option<&str>,
) -> FunctionShape {
    FunctionShape {
        name: name.to_string(),
        visibility: String::new(),
        generics: Vec::new(),
        parameters,
        return_type: return_type.map(|t| t.to_string()),
    }
}

fn rejection_message(shape: FunctionShape) -> String {
    match auto_vec(shape) {
        Emission::Emitted { .. } => panic!("an ineligible shape must be rejected"),
        Emission::Rejected { diagnostic } => diagnostic.message,
    }
}

#[test]
fn trybuild_tests() {
    // A definition with no parameters at all.
    let no_input = shape_of("foo", Vec::new(), Some("usize"));
    assert_eq!(rejection_message(no_input), "Auto_vec: Expected one or more arguments, Found None");

    // A definition with parameters but no return type.
    let no_output = shape_of("foo", vec![typed("a", "usize"), typed("b", "usize")], None);
    assert_eq!(rejection_message(no_output), "Auto_vec: Expected a return type, Found None");

    // A definition whose only parameter is the receiver.
    let no_typed_input = shape_of("foo", vec![Parameter::Receiver], Some("usize"));
    assert_eq!(
        rejection_message(no_typed_input),
        "Auto_vec: Expected one or more Typed arguments, Found None"
    );
}

#[test]
fn rejection_checks_are_ordered() {
    // With no parameters and no return type, the parameter check wins.
    let both = shape_of("foo", Vec::new(), None);
    assert_eq!(rejection_message(both), "Auto_vec: Expected one or more arguments, Found None");

    // With a receiver only and no return type, the return-type check
    // comes before the typed-parameter check.
    let receiver_no_ret = shape_of("foo", vec![Parameter::Receiver], None);
    assert_eq!(
        rejection_message(receiver_no_ret),
        "Auto_vec: Expected a return type, Found None"
    );
}

#[test]
fn rejected_diagnostic_keeps_anchor() {
    let shape = shape_of("original_name", Vec::new(), Some("usize"));
    match auto_vec(shape) {
        Emission::Emitted { .. } => panic!("an ineligible shape must be rejected"),
        Emission::Rejected { diagnostic } => {
            assert_eq!(diagnostic.anchor.name, "original_name");
            assert!(diagnostic.anchor.parameters.is_empty());
        },
    }
}

#[test]
fn synthesizes_free_function() {
    let shape = shape_of("foo", vec![typed("a", "usize"), typed("b", "usize")], Some("usize"));
    match auto_vec(shape) {
        Emission::Rejected { .. } => panic!("an eligible shape must be emitted"),
        Emission::Emitted { original, generated } => {
            assert_eq!(original.name, "foo");
            assert_eq!(original.parameters.len(), 2);
            assert_eq!(generated.name, "foo_vec");
            assert_eq!(generated.visibility, "");
            assert!(generated.generics.is_empty());
            assert_eq!(generated.return_type, "Vec<usize>");
            assert_eq!(generated.parameters.len(), 2);
            match &generated.parameters[0] {
                Parameter::Typed { pattern, ty } => {
                    assert_eq!(pattern, "a");
                    assert_eq!(ty, "Vec<usize>");
                },
                Parameter::Receiver => panic!("expected a typed parameter"),
            }
            match &generated.parameters[1] {
                Parameter::Typed { pattern, ty } => {
                    assert_eq!(pattern, "b");
                    assert_eq!(ty, "Vec<usize>");
                },
                Parameter::Receiver => panic!("expected a typed parameter"),
            }
            let body = &generated.body;
            assert_eq!(body.length_checks.len(), 1);
            assert_eq!(body.length_checks[0].left, "a");
            assert_eq!(body.length_checks[0].right, "b");
            assert_eq!(
                body.mismatch_message,
                "Input vectors of not the same length to vectorized function foo_vec"
            );
            assert_eq!(body.length_source, "a");
            match &body.target {
                CallTarget::Free { name } => assert_eq!(name, "foo"),
                CallTarget::Method { .. } => panic!("a free function must not dispatch on self"),
            }
            assert_eq!(body.call_arguments, vec!["a".to_string(), "b".to_string()]);
        },
    }
}

#[test]
fn synthesizes_method_with_receiver() {
    let shape = shape_of(
        "bar",
        vec![Parameter::Receiver, typed("arg1", "usize"), typed("arg2", "usize")],
        Some("usize"),
    );
    match auto_vec(shape) {
        Emission::Rejected { .. } => panic!("an eligible method must be emitted"),
        Emission::Emitted { original: _, generated } => {
            assert_eq!(generated.name, "bar_vec");
            assert_eq!(generated.parameters.len(), 3);
            assert!(matches!(generated.parameters[0], Parameter::Receiver));
            match &generated.parameters[1] {
                Parameter::Typed { pattern, ty } => {
                    assert_eq!(pattern, "arg1");
                    assert_eq!(ty, "Vec<usize>");
                },
                Parameter::Receiver => panic!("expected a typed parameter"),
            }
            let body = &generated.body;
            assert_eq!(body.length_checks.len(), 1);
            assert_eq!(body.length_checks[0].left, "arg1");
            assert_eq!(body.length_checks[0].right, "arg2");
            assert_eq!(body.length_source, "arg1");
            match &body.target {
                CallTarget::Method { name } => assert_eq!(name, "bar"),
                CallTarget::Free { .. } => panic!("a method must dispatch through its receiver"),
            }
            assert_eq!(body.call_arguments, vec!["arg1".to_string(), "arg2".to_string()]);
        },
    }
}

#[test]
fn generics_and_visibility_pass_through() {
    let shape = FunctionShape {
        name: "yay".to_string(),
        visibility: "pub".to_string(),
        generics: vec![GenericParam {
            name: "T".to_string(),
            bounds: vec!["Into<i64>".to_string()],
        }],
        parameters: vec![typed("a", "String"), typed("b", "Vec<i64>"), typed("c", "T")],
        return_type: Some("i64".to_string()),
    };
    match auto_vec(shape) {
        Emission::Rejected { .. } => panic!("an eligible shape must be emitted"),
        Emission::Emitted { original: _, generated } => {
            assert_eq!(generated.name, "yay_vec");
            assert_eq!(generated.visibility, "pub");
            assert_eq!(generated.generics.len(), 1);
            assert_eq!(generated.generics[0].name, "T");
            assert_eq!(generated.generics[0].bounds, vec!["Into<i64>".to_string()]);
            assert_eq!(generated.return_type, "Vec<i64>");
            assert_eq!(generated.body.length_checks.len(), 2);
            assert_eq!(generated.body.length_checks[0].left, "a");
            assert_eq!(generated.body.length_checks[0].right, "b");
            assert_eq!(generated.body.length_checks[1].left, "b");
            assert_eq!(generated.body.length_checks[1].right, "c");
        },
    }
}

#[test]
fn derived_name_and_texts() {
    assert_eq!(vec_name("foo"), "foo_vec");
    assert_eq!(wrap_type("usize"), "Vec<usize>");
    assert_eq!(
        mismatch_message("foo_vec"),
        "Input vectors of not the same length to vectorized function foo_vec"
    );
}

#[test]
fn error_message_texts() {
    assert_eq!(
        auto_vec::EligibilityError::ArgumentsMissing.message(),
        "Auto_vec: Expected one or more arguments, Found None"
    );
    assert_eq!(
        auto_vec::EligibilityError::ReturnTypeMissing.message(),
        "Auto_vec: Expected a return type, Found None"
    );
    assert_eq!(
        auto_vec::EligibilityError::NoTypedArguments.message(),
        "Auto_vec: Expected one or more Typed arguments, Found None"
    );
}
