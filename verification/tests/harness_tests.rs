//! The problem harness: forms, the problem builders, field validation,
//! the dispatcher's names, the CSV line grammar and the views.

use numeric_workbench::common::csv_fields;
use numeric_workbench::dispatch::{Message, ProblemName};
use numeric_workbench::integral_eq::WolterraSecondKindSystemOfEquations;
use numeric_workbench::mathparse::runtime::DefaultLanguage;
use numeric_workbench::problems::area_calc::AreaCalcProblemCreator;
use numeric_workbench::problems::form::Form;
use numeric_workbench::problems::fredholm_1st::Fredholm1stProblemCreator;
use numeric_workbench::problems::gradients_min::GradientsMinProblemCreator;
use numeric_workbench::problems::graph::PathKind;
use numeric_workbench::problems::penalty_min::PenaltyMinProblemCreator;
use numeric_workbench::problems::spline::SplineProblemCreator;
use numeric_workbench::problems::validate_expr;
use numeric_workbench::problems::volterra_2nd::Volterra2ndProblemCreator;
use numeric_workbench::problems::wolterra_2nd::Wolterra2ndProblemCreator;
use numeric_workbench::views::area::AreaView;
use numeric_workbench::views::integral_fredholm_1::Fredholm1View;
use numeric_workbench::views::integral_wolterra_2::Wolterra2View;
use numeric_workbench::views::Error as ViewError;

fn field_pairs(form: &Form) -> Vec<(String, String)> {
    let mut out = Vec::new();
    let mut it = form.get_fields();
    while let Some((name, val)) = it.next() {
        out.push((name.to_string(), val.to_string()));
    }
    out
}

#[test]
fn hi() {
    // a problem definition in miniature: one numeric field, one formula
    // field restricted to the axes x and y
    let mut form = Form::new(vec!["myfloat".to_string()]);
    form.add_field("myfunc".to_string());
    form.set("myfloat", "1.5".to_string());
    form.set("myfunc", "x+y".to_string());
    let lang = DefaultLanguage::default();
    let mut parsed = None;
    let allowed = vec!["x".to_string(), "y".to_string()];
    let res = validate_expr(
        "myfunc",
        form.get("myfunc").unwrap().as_str(),
        Some(&allowed),
        &lang,
        &mut parsed,
    );
    assert!(res.is_ok() && parsed.is_some());
}

#[test]
fn form_set_get() {
    let mut form = Form::new(vec!["a".to_string(), "b".to_string()]);
    assert_eq!(form.get("a").map(|s| s.clone()), Some("".to_string()));
    form.set("a", "1".to_string());
    form.set("missing", "2".to_string());
    assert_eq!(form.get("a").map(|s| s.clone()), Some("1".to_string()));
    assert!(form.get("missing").is_none());
    form.add_field("c".to_string());
    form.add_field("a".to_string());
    let pairs = field_pairs(&form);
    assert_eq!(
        pairs,
        vec![
            ("a".to_string(), "1".to_string()),
            ("b".to_string(), "".to_string()),
            ("c".to_string(), "".to_string()),
        ]
    );
}

#[test]
fn validate_expr_reports_unknown_vars() {
    let lang = DefaultLanguage::default();
    let mut parsed = None;
    let allowed = vec!["x".to_string(), "s".to_string()];
    assert!(validate_expr("kernel", "abs(x-s)", Some(&allowed), &lang, &mut parsed).is_ok());

    let res = validate_expr("kernel", "abs(x-t)", Some(&allowed), &lang, &mut parsed);
    match res {
        Err(e) => assert_eq!(e.0, "kernel - variables not allowed".to_string()),
        Ok(()) => panic!("a formula over a foreign axis passed"),
    }

    let res = validate_expr("kernel", "abs(x-", Some(&allowed), &lang, &mut parsed);
    match res {
        Err(e) => assert_eq!(e.0, "kernel - could not parse".to_string()),
        Ok(()) => panic!("an unparseable formula passed"),
    }
}

#[test]
fn fredholm_creator_defaults() {
    let c = Fredholm1stProblemCreator::default();
    let pairs = field_pairs(c.form());
    assert_eq!(
        pairs,
        vec![
            ("kernel".to_string(), "abs(x-s)".to_string()),
            ("right_side".to_string(), "pow(x,2)".to_string()),
            ("from".to_string(), "-1".to_string()),
            ("to".to_string(), "1".to_string()),
            ("eps".to_string(), "1e-8".to_string()),
            ("n".to_string(), "50".to_string()),
            ("max_iter_count".to_string(), "10000".to_string()),
            ("dest_file".to_string(), "y.csv".to_string()),
        ]
    );
}

#[test]
fn creators_defaults_cover_their_fields() {
    assert_eq!(field_pairs(AreaCalcProblemCreator::default().form()).len(), 11);
    assert_eq!(field_pairs(Volterra2ndProblemCreator::default().form()).len(), 7);
    assert_eq!(field_pairs(Wolterra2ndProblemCreator::default().form()).len(), 6);
    assert_eq!(field_pairs(PenaltyMinProblemCreator::default().form()).len(), 8);
    assert_eq!(field_pairs(SplineProblemCreator::default().form()).len(), 2);

    let penalty = PenaltyMinProblemCreator::default();
    assert_eq!(
        penalty.form().get("constraint1").map(|s| s.clone()),
        Some("-x-1".to_string())
    );
    assert_eq!(
        penalty.form().get("constraint2").map(|s| s.clone()),
        Some("".to_string())
    );
}

#[test]
fn creator_set_field_writes() {
    let mut c = Wolterra2ndProblemCreator::default();
    c.set_field("lambda", "2".to_string());
    assert_eq!(c.form().get("lambda").map(|s| s.clone()), Some("2".to_string()));
    c.set_field("no_such_field", "3".to_string());
    assert!(c.form().get("no_such_field").is_none());
}

#[test]
fn gradients_creator_rebuilds_axes() {
    let mut c = GradientsMinProblemCreator::default();
    assert_eq!(
        c.ordered_vars().clone(),
        vec!["x".to_string(), "y".to_string()]
    );

    c.set_field("f", "pow(a,2)+3b".to_string());
    assert_eq!(
        c.ordered_vars().clone(),
        vec!["a".to_string(), "b".to_string()]
    );
    let names: Vec<String> = field_pairs(c.form()).into_iter().map(|(n, _)| n).collect();
    assert_eq!(
        names,
        vec![
            "f".to_string(),
            "eps".to_string(),
            "max_iter_count".to_string(),
            "a0".to_string(),
            "b0".to_string(),
            "df/da".to_string(),
            "df/db".to_string(),
        ]
    );
    assert_eq!(
        c.form().get("f").map(|s| s.clone()),
        Some("pow(a,2)+3b".to_string())
    );
    // the retained base fields keep their values
    assert_eq!(
        c.form().get("eps").map(|s| s.clone()),
        Some("0.00001".to_string())
    );

    // an unparseable objective leaves the axes alone
    c.set_field("f", "pow(".to_string());
    assert_eq!(
        c.ordered_vars().clone(),
        vec!["a".to_string(), "b".to_string()]
    );
}

#[test]
fn problem_names_round_trip() {
    let all = [
        ProblemName::FredholmFirst,
        ProblemName::AreaCalc,
        ProblemName::WolterraSecond,
        ProblemName::PenaltyMin,
        ProblemName::Spline,
        ProblemName::GradientsMin,
    ];
    for (i, p) in all.iter().enumerate() {
        assert_eq!(p.to_index(), i);
        assert_eq!(ProblemName::from_index(i), Some(p.clone()));
    }
    assert_eq!(ProblemName::from_index(6), None);
    assert_eq!(
        ProblemName::WolterraSecond.to_string(),
        "Wolterra second kind".to_string()
    );
    let m = Message::SelectProblem(ProblemName::Spline);
    match m {
        Message::SelectProblem(p) => assert_eq!(p, ProblemName::Spline),
        _ => panic!("wrong message"),
    }
}

#[test]
fn csv_line_fields() {
    assert_eq!(
        csv_fields("0.1,1"),
        Some(("0.1".to_string(), "1".to_string()))
    );
    assert_eq!(
        csv_fields("1,2,3"),
        Some(("1".to_string(), "2".to_string()))
    );
    assert_eq!(csv_fields("0.3"), None);
    assert_eq!(csv_fields(""), None);
    assert_eq!(csv_fields("a,"), Some(("a".to_string(), "".to_string())));
}

#[test]
fn wolterra_scheme_keeps_step_count() {
    let s = WolterraSecondKindSystemOfEquations::new(50);
    assert_eq!(s.step_count(), 50);
}

#[test]
fn path_kinds_are_distinct() {
    assert_ne!(PathKind::Line, PathKind::Filled);
    assert_ne!(PathKind::Filled, PathKind::Dot);
    assert_eq!(PathKind::Line, PathKind::Line);
}

#[test]
fn fredholm_view_fields() {
    let mut v = Fredholm1View::default();
    assert_eq!(v.kernel_field, "abs(x-s)".to_string());
    assert_eq!(v.get_field("eps").map(|s| s.to_string()), Some("1e-8".to_string()));
    assert!(v.get_field("nope").is_none());
    assert!(v.set_field("n", "100".to_string()).is_ok());
    assert_eq!(v.n_field, "100".to_string());
    assert_eq!(v.get_fields().len(), 8);
}

#[test]
fn wolterra_view_fields() {
    let v = Wolterra2View::default();
    assert_eq!(v.kernel_field, "exp(x-s)".to_string());
    assert_eq!(v.save_file_path_field, "./func.csv".to_string());
    assert_eq!(v.get_fields().len(), 7);
}

#[test]
fn area_view_error_reports() {
    let v = AreaView::default();
    assert_eq!(v.x23_to_field, "-0.1".to_string());
    assert_eq!(v.get_fields().len(), 11);

    let e = numeric_workbench::views::area::Error::F1Field("bad".to_string());
    match e.to_view_error() {
        ViewError::InvalidField { name, err } => {
            assert_eq!(name, "f1".to_string());
            assert_eq!(err, "bad".to_string());
        }
        _ => panic!("wrong error kind"),
    }

    let e = numeric_workbench::views::area::Error::F2IncorrectArgCount { expected: 1, got: 2 };
    match e.to_view_error() {
        ViewError::InvalidField { name, err } => {
            assert_eq!(name, "f2".to_string());
            assert_eq!(
                err,
                "Incorrect argument count: expected 1, got 2".to_string()
            );
        }
        _ => panic!("wrong error kind"),
    }
}
