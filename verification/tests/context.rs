use std::sync::Arc;

use cloneable_errors::{
    AnyhowErrContext, AnyhowResContext, ErrContext, ErrorContext, ErrorItem, ErrorRef, Extension,
    ForeignError, IntoErrorIterator, ResContext, ResExtensions, SerializableError, SharedString,
};

#[derive(PartialEq, Eq, Debug)]
struct Code(u32);
#[derive(PartialEq, Eq, Debug)]
struct Tag;

impl Extension for Code {}
impl Extension for Tag {}

fn texts(error: &ErrorContext) -> Vec<String> {
    error.serializable_copy().message_list().into_iter().map(String::from).collect()
}

#[test]
fn new_has_no_cause_and_no_extensions() {
    let error = ErrorContext::new("helo");
    assert_eq!(error.message(), "helo");
    assert!(error.cause.is_none());
    assert!(error.extensions.is_none());
    match &error.context {
        SharedString::Static(text) => assert_eq!(*text, "helo"),
        SharedString::Arc(_) => panic!("expected the static form"),
    }
    let owned = ErrorContext::new(String::from("owned"));
    assert_eq!(owned.message(), "owned");
}

#[test]
fn context_wraps_the_error_and_starts_without_extensions() {
    let mut base = ErrorContext::new("base");
    base.add_extension(Arc::new(Code(1)));
    let layer = base.clone().context("layer");
    assert_eq!(layer.message(), "layer");
    assert!(layer.extensions.is_none());
    match layer.cause.as_deref() {
        Some(ErrorItem::Context(cause)) => {
            assert!(*cause == base);
            assert_eq!(cause.message(), "base");
        }
        _ => panic!("expected the wrapped layer"),
    }
}

#[test]
fn a_clone_is_equal_until_its_extensions_change() {
    let mut error = ErrorContext::new("helo").context("top");
    let copy = error.clone();
    assert!(error == copy);
    assert!(error.ptr_eq(&copy));
    error.add_extension(Arc::new(Tag));
    assert!(error != copy);
    assert!(copy.find_extension::<Tag>().is_none());
    assert!(error.find_extension::<Tag>().is_some());
}

#[test]
fn errors_built_apart_are_unequal() {
    let a = ErrorContext::new(String::from("helo"));
    let b = ErrorContext::new(String::from("helo"));
    assert!(a != b);
    let c = ErrorContext::new("x").context("y");
    let d = ErrorContext::new("x").context("y");
    assert!(c != d);
}

#[test]
fn adding_twice_keeps_only_the_second() {
    let mut error = ErrorContext::new("helo");
    let first = Arc::new(Code(3));
    let second = Arc::new(Code(7));
    error.add_extension(first.clone());
    error.add_extension(second.clone());
    assert!(Arc::ptr_eq(&error.find_extension::<Code>().unwrap(), &second));
    assert_eq!(Arc::strong_count(&first), 1);
    assert_eq!(error.remove_extension::<Code>(), Some(second));
    assert_eq!(error.remove_extension::<Code>(), None);
    assert_eq!(error.find_extension::<Code>(), None);
}

#[test]
fn adding_to_one_clone_leaves_the_other_alone() {
    let mut a = ErrorContext::new("helo");
    a.add_extension(Arc::new(Code(1)));
    let mut b = a.clone();
    b.add_extension(Arc::new(Code(2)));
    b.add_extension(Arc::new(Tag));
    assert_eq!(a.find_extension::<Code>(), Some(Arc::new(Code(1))));
    assert_eq!(a.find_extension::<Tag>(), None);
    assert_eq!(b.find_extension::<Code>(), Some(Arc::new(Code(2))));
    a.remove_extension::<Code>();
    assert_eq!(b.find_extension::<Code>(), Some(Arc::new(Code(2))));
}

#[test]
fn removal_leaves_the_layers_below_alone() {
    let mut base = ErrorContext::new("base");
    base.add_extension(Arc::new(Code(1)));
    let mut layer = base.clone().context("layer");
    layer.add_extension(Arc::new(Code(2)));
    assert_eq!(layer.find_extension::<Code>(), Some(Arc::new(Code(2))));
    assert_eq!(layer.remove_extension::<Code>(), Some(Arc::new(Code(2))));
    assert_eq!(layer.find_extension::<Code>(), Some(Arc::new(Code(1))));
    assert_eq!(base.find_extension::<Code>(), Some(Arc::new(Code(1))));
}

#[test]
fn removing_from_an_error_without_extensions_gives_nothing() {
    let mut error = ErrorContext::new("helo");
    assert_eq!(error.remove_extension::<Code>(), None);
    assert!(error.extensions.is_none());
}

#[test]
fn a_mask_hides_what_the_layers_below_hold() {
    let mut base = ErrorContext::new("base");
    base.add_extension(Arc::new(Code(1)));
    base.add_extension(Arc::new(Tag));
    let mut layer = base.clone().context("layer");
    layer.mask_extension::<Code>();
    let top = layer.clone().context("top");

    assert_eq!(layer.find_extension::<Code>(), None);
    assert_eq!(top.find_extension::<Code>(), None);
    assert_eq!(top.find_extension::<Tag>(), Some(Arc::new(Tag)));
    assert_eq!(base.find_extension::<Code>(), Some(Arc::new(Code(1))));
}

#[test]
fn a_value_above_or_beside_a_mask_is_found() {
    let mut base = ErrorContext::new("base");
    base.add_extension(Arc::new(Code(1)));
    let mut layer = base.context("layer");
    layer.mask_extension::<Code>();
    // a value on the masking layer itself wins over its mask
    let mut both = layer.clone();
    both.add_extension(Arc::new(Code(2)));
    assert_eq!(both.find_extension::<Code>(), Some(Arc::new(Code(2))));
    // removing it again leaves the mask in place
    assert_eq!(both.remove_extension::<Code>(), Some(Arc::new(Code(2))));
    assert_eq!(both.find_extension::<Code>(), None);
    // a value on a layer above the mask is found
    let mut top = layer.context("top");
    top.add_extension(Arc::new(Code(3)));
    assert_eq!(top.find_extension::<Code>(), Some(Arc::new(Code(3))));
}

#[test]
fn with_and_without_extension_build_on_the_error() {
    let error = ErrorContext::new("helo").with_extension(Arc::new(Code(5))).with_extension(Arc::new(Tag));
    assert_eq!(error.find_extension::<Code>(), Some(Arc::new(Code(5))));
    assert_eq!(error.find_extension::<Tag>(), Some(Arc::new(Tag)));
    let error = error.without_extension::<Code>();
    assert_eq!(error.find_extension::<Code>(), None);
    assert_eq!(error.find_extension::<Tag>(), Some(Arc::new(Tag)));
}

#[test]
fn the_search_passes_over_errors_that_are_no_layers() {
    let mut base = ErrorContext::new("base");
    base.add_extension(Arc::new(Code(9)));
    let foreign = ForeignError {
        message: String::from("foreign"),
        source: Some(Arc::new(ErrorItem::Shared(Arc::new(ErrorItem::Context(base))))),
    };
    let top = foreign.context("top");
    assert_eq!(top.find_extension::<Code>(), Some(Arc::new(Code(9))));
    assert_eq!(top.find_extension::<Tag>(), None);
    assert_eq!(texts(&top), vec!["top", "foreign", "base"]);

    let flat = SerializableError::from_messages(vec![String::from("flat")]).unwrap();
    assert_eq!(flat.find_extension::<Code>(), None);
    assert_eq!(flat.context("over flat").find_extension::<Code>(), None);
}

#[test]
fn the_iterator_frees_errors_of_shared_pointers() {
    let item = Arc::new(ErrorItem::Shared(Arc::new(ErrorItem::Context(ErrorContext::new("inner")))));
    let mut iter = item.error_chain();
    match iter.next() {
        Some(ErrorRef::Context(layer)) => assert_eq!(layer.message(), "inner"),
        _ => panic!("expected the layer behind the pointers"),
    }
    assert!(iter.next().is_none());
}

#[test]
fn results_and_options_are_annotated() {
    let ok: Result<u8, ErrorContext> = Ok(1);
    assert_eq!(ResContext::context(ok, "unused").ok(), Some(1));

    let err: Result<u8, ErrorContext> = Err(ErrorContext::new("root"));
    let annotated = ResContext::context(err, "top").unwrap_err();
    assert_eq!(texts(&annotated), vec!["top", "root"]);

    let err: Result<u8, ErrorContext> = Err(ErrorContext::new("root"));
    let annotated = ResContext::with_context(err, || format!("top {}", 2)).unwrap_err();
    assert_eq!(texts(&annotated), vec!["top 2", "root"]);

    let mut called = false;
    let ok: Result<u8, ErrorContext> = Ok(1);
    let kept = ResContext::with_context(ok, || {
        called = true;
        "unused"
    });
    assert_eq!(kept.ok(), Some(1));
    assert!(!called);

    assert_eq!(Some(4).context("missing").ok(), Some(4));
    let missing = None::<u8>.context("missing").unwrap_err();
    assert_eq!(missing.message(), "missing");
    assert!(missing.cause.is_none());
    let missing = None::<u8>.with_context(|| "computed").unwrap_err();
    assert_eq!(missing.message(), "computed");
    assert_eq!(Some(4).with_context(|| "unused").ok(), Some(4));
}

#[test]
fn errors_of_results_are_extended() {
    let err: Result<u8, ErrorContext> = Err(ErrorContext::new("root"));
    let extended = err.extend(Arc::new(Code(1))).with_extension(|| Arc::new(Tag)).unwrap_err();
    assert_eq!(extended.find_extension::<Code>(), Some(Arc::new(Code(1))));
    assert_eq!(extended.find_extension::<Tag>(), Some(Arc::new(Tag)));

    let reduced = Err::<u8, ErrorContext>(extended).without_extension::<Code>().unwrap_err();
    assert_eq!(reduced.find_extension::<Code>(), None);
    assert_eq!(reduced.find_extension::<Tag>(), Some(Arc::new(Tag)));

    let ok: Result<u8, ErrorContext> = Ok(1);
    let mut called = false;
    let kept = ok.extend(Arc::new(Code(1))).with_extension(|| {
        called = true;
        Arc::new(Tag)
    });
    assert_eq!(kept.without_extension::<Tag>().ok(), Some(1));
    assert!(!called);
}

#[test]
fn anyhow_errors_become_layers_over_their_flattened_stack() {
    let error = anyhow::Error::msg("root").context("middle");
    let converted = ErrorContext::from(error);
    assert_eq!(converted.message(), "middle");
    assert!(converted.extensions.is_none());
    assert_eq!(texts(&converted), vec!["middle", "root"]);

    let error = anyhow::Error::msg("root").context("middle");
    let annotated = AnyhowErrContext::context(error, "top");
    assert_eq!(texts(&annotated), vec!["top", "middle", "root"]);

    let res: Result<u8, anyhow::Error> = Err(anyhow::Error::msg("root"));
    let annotated = AnyhowResContext::context(res, "top").unwrap_err();
    assert_eq!(texts(&annotated), vec!["top", "root"]);

    let res: Result<u8, anyhow::Error> = Err(anyhow::Error::msg("root"));
    let annotated = AnyhowResContext::with_context(res, || String::from("lazy")).unwrap_err();
    assert_eq!(texts(&annotated), vec!["lazy", "root"]);

    let res: Result<u8, anyhow::Error> = Ok(3);
    assert_eq!(AnyhowResContext::context(res, "top").ok(), Some(3));
}

#[test]
fn converted_anyhow_errors_hold_strings_of_their_own() {
    let converted = ErrorContext::from(anyhow::Error::msg("root").context("top"));
    assert!(matches!(converted.context, SharedString::Arc(_)));
    match converted.cause.as_deref() {
        Some(ErrorItem::Serializable(stack)) => {
            assert!(matches!(stack.context, SharedString::Arc(_)));
            assert_eq!(stack.message(), "root");
            assert!(stack.cause.is_none());
        }
        _ => panic!("expected the flattened stack of the causes"),
    }

    let single = ErrorContext::from(anyhow::Error::msg("alone"));
    assert!(single.cause.is_none());

    let res: Result<u8, anyhow::Error> = Err(anyhow::Error::msg("root"));
    let annotated = AnyhowResContext::context(res, "top").unwrap_err();
    assert!(annotated.extensions.is_none());
    match annotated.cause.as_deref() {
        Some(ErrorItem::Context(inner)) => {
            assert_eq!(inner.message(), "root");
            assert!(inner.extensions.is_none());
            assert!(matches!(inner.context, SharedString::Arc(_)));
        }
        _ => panic!("expected the converted error as a layer"),
    }
}
