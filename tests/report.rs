use flex_error::decimal::push_decimal;
use flex_error::families::{
    bar_error, baz_error, foo_error, interrupted_error, BarSubdetail, BazSubdetail, FooErrorDetail,
    FooSubdetail, QuuxErrorDetail,
};
use flex_error::family_spec::{check_family, SpecError, VariantSpec};
use flex_error::{DisplayError, ErrorMessage, ErrorMessageTracer, ErrorReport, NoTracer, StringTracer};

fn strings(v: &[&str]) -> Vec<String> {
    v.iter().map(|s| s.to_string()).collect()
}

#[test]
fn no_cause_variant_seeds_one_message() {
    let e = baz_error("bad input".to_string());
    assert_eq!(
        e.trace.messages(),
        strings(&["General Baz error with extra detail: bad input"])
    );
    assert_eq!(e.trace.len(), 1);
}

#[test]
fn opaque_cause_is_not_recorded() {
    let e = bar_error(7, "disk full".to_string());
    assert_eq!(e.trace.messages(), strings(&["Bar error with code 7"]));
    for m in e.trace.messages() {
        assert!(!m.contains("disk full"));
    }
}

#[test]
fn report_cause_trace_is_extended_at_the_end() {
    let foo = bar_error(7, "disk full".to_string());
    let quux = foo_error("sync".to_string(), foo);
    assert_eq!(
        quux.trace.messages(),
        strings(&["Bar error with code 7", "error arose from Foo during sync"])
    );
}

#[test]
fn longer_trace_is_extended_without_duplicates() {
    let base = baz_error("x".to_string());
    let mid = ErrorReport::<QuuxErrorDetail, StringTracer>::trace_from::<
        ErrorReport<FooErrorDetail, StringTracer>,
        _,
    >(base, |d| {
        QuuxErrorDetail::Foo(FooSubdetail { action: "load".to_string(), source: d })
    });
    let mut trace = mid.trace;
    trace = trace.add_message(&"third".to_string());
    assert_eq!(
        trace.messages(),
        strings(&[
            "General Baz error with extra detail: x",
            "error arose from Foo during load",
            "third",
        ])
    );
}

#[test]
fn retained_cause_is_unchanged() {
    let a = bar_error(7, "disk full".to_string());
    let kept = a.trace.clone();
    let before = kept.messages();
    let x = foo_error("sync".to_string(), a);
    assert_eq!(kept.messages(), before);
    assert_eq!(kept.messages(), strings(&["Bar error with code 7"]));
    assert_eq!(x.trace.len(), 2);
}

#[test]
fn constructed_fields_come_back() {
    let e = bar_error(42, "disk full".to_string());
    match e.detail {
        FooErrorDetail::Bar(BarSubdetail { code, source }) => {
            assert_eq!(code, 42);
            assert_eq!(source, "disk full");
        }
        FooErrorDetail::Baz(_) => panic!("wrong variant"),
    }
    let e = baz_error("extra".to_string());
    match e.detail {
        FooErrorDetail::Baz(BazSubdetail { extra }) => assert_eq!(extra, "extra"),
        FooErrorDetail::Bar(_) => panic!("wrong variant"),
    }
    let q = foo_error("sync".to_string(), bar_error(3, "x".to_string()));
    match q.detail {
        QuuxErrorDetail::Foo(FooSubdetail { action, source }) => {
            assert_eq!(action, "sync");
            match source {
                FooErrorDetail::Bar(b) => {
                    assert_eq!(b.code, 3);
                    assert_eq!(b.source, "x");
                }
                FooErrorDetail::Baz(_) => panic!("wrong variant"),
            }
        }
        QuuxErrorDetail::Interrupted(_) => panic!("wrong variant"),
    }
}

#[test]
fn zero_field_variant_constructs() {
    let e = interrupted_error();
    assert!(matches!(e.detail, QuuxErrorDetail::Interrupted(_)));
    assert_eq!(e.trace.messages(), strings(&["operation interrupted"]));
}

#[test]
fn family_message_dispatches_on_tag() {
    let d = FooErrorDetail::Bar(BarSubdetail { code: 10, source: "s".to_string() });
    assert_eq!(d.message(), "Bar error with code 10");
    let q = QuuxErrorDetail::Foo(FooSubdetail { action: "a".to_string(), source: d });
    assert_eq!(q.message(), "error arose from Foo during a");
}

#[test]
fn no_tracer_records_nothing() {
    let r = ErrorReport::<String, NoTracer>::new("boom".to_string());
    assert_eq!(r.detail, "boom");
    let r2 = ErrorReport::<String, NoTracer>::trace_from::<ErrorReport<String, NoTracer>, _>(r, |d| {
        format!("outer of {}", d)
    });
    assert_eq!(r2.detail, "outer of boom");
}

#[test]
fn display_error_source_brings_no_trace() {
    let r = ErrorReport::<String, StringTracer>::trace_from::<DisplayError<String>, _>(
        "io failed".to_string(),
        |d| format!("wrapped: {}", d),
    );
    assert_eq!(r.trace.messages(), strings(&["wrapped: io failed"]));
}

#[test]
fn decimal_rendering() {
    for (n, want) in [(0u32, "0"), (7, "7"), (10, "10"), (1234, "1234"), (u32::MAX, "4294967295")] {
        let mut s = "n=".to_string();
        push_decimal(&mut s, n);
        assert_eq!(s, format!("n={}", want));
    }
}

fn variant(name: &str, fields: &[&str], has_cause: bool) -> VariantSpec {
    VariantSpec { name: name.to_string(), fields: strings(fields), has_cause }
}

#[test]
fn reserved_field_with_cause_is_rejected() {
    let vs = vec![variant("Bar", &["code", "source"], true)];
    assert_eq!(check_family(&vs), Err(SpecError::ReservedField { variant: 0, field: 1 }));
}

#[test]
fn reserved_field_without_cause_is_accepted() {
    let vs = vec![variant("Bar", &["code", "source"], false)];
    assert_eq!(check_family(&vs), Ok(()));
}

#[test]
fn duplicate_variant_is_rejected() {
    let vs = vec![
        variant("Bar", &["code"], true),
        variant("Baz", &[], false),
        variant("Bar", &[], false),
    ];
    assert_eq!(check_family(&vs), Err(SpecError::DuplicateVariant { first: 0, second: 2 }));
}

#[test]
fn first_fault_in_order_is_reported() {
    let vs = vec![
        variant("Bar", &[], false),
        variant("Bar", &["source"], true),
    ];
    assert_eq!(check_family(&vs), Err(SpecError::ReservedField { variant: 1, field: 0 }));
}

#[test]
fn well_formed_family_is_accepted() {
    let vs = vec![
        variant("Bar", &["code"], true),
        variant("Baz", &["extra"], false),
        variant("Quiet", &[], false),
    ];
    assert_eq!(check_family(&vs), Ok(()));
    assert_eq!(check_family(&Vec::new()), Ok(()));
}

#[test]
fn source_is_the_trace() {
    let q = foo_error("sync".to_string(), bar_error(7, "disk full".to_string()));
    assert_eq!(
        q.source().messages(),
        strings(&["Bar error with code 7", "error arose from Foo during sync"])
    );
}
