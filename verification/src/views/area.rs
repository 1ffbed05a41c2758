//! The curvilinear-triangle area solver's view: its editable fields and its field-level errors.

use vstd::prelude::*;
use vstd::string::StringExecFns;

use crate::mathparse::chars::str_eq;
use crate::mathparse::runtime::strs_view;

verus! {

/// A field of this view that cannot be used, or a failed computation.
#[derive(Debug, Clone)]
pub enum Error {
    F1Field(String),
    F2Field(String),
    F3Field(String),
    X12FromField(String),
    X12ToField(String),
    X13FromField(String),
    X13ToField(String),
    X23FromField(String),
    X23ToField(String),
    AreaEpsField(String),
    MaxIterCountField(String),
    F1IncorrectArgCount { expected: usize, got: usize },
    F2IncorrectArgCount { expected: usize, got: usize },
    F3IncorrectArgCount { expected: usize, got: usize },
    Calculation(String),
}

impl Error {
    /// The view-level report of this failure: field errors name
    /// their field, the rest surfaces as a runtime failure.
    pub fn to_view_error(self) -> (r: super::Error)
        ensures
            match self {
                Error::F1Field(e) => r@ == (super::ErrorV::InvalidField { name: "f1"@, err: e@ }),
                Error::F2Field(e) => r@ == (super::ErrorV::InvalidField { name: "f2"@, err: e@ }),
                Error::F3Field(e) => r@ == (super::ErrorV::InvalidField { name: "f3"@, err: e@ }),
                Error::X12FromField(e) => r@ == (super::ErrorV::InvalidField { name: "x12_from"@, err: e@ }),
                Error::X12ToField(e) => r@ == (super::ErrorV::InvalidField { name: "x12_to"@, err: e@ }),
                Error::X13FromField(e) => r@ == (super::ErrorV::InvalidField { name: "x13_from"@, err: e@ }),
                Error::X13ToField(e) => r@ == (super::ErrorV::InvalidField { name: "x13_to"@, err: e@ }),
                Error::X23FromField(e) => r@ == (super::ErrorV::InvalidField { name: "x23_from"@, err: e@ }),
                Error::X23ToField(e) => r@ == (super::ErrorV::InvalidField { name: "x23_to"@, err: e@ }),
                Error::AreaEpsField(e) => r@ == (super::ErrorV::InvalidField { name: "eps"@, err: e@ }),
                Error::MaxIterCountField(e) => r@ == (super::ErrorV::InvalidField { name: "max_iter_count"@, err: e@ }),
                Error::F1IncorrectArgCount { expected, got } => r@ == (super::ErrorV::InvalidField {
                    name: "f1"@,
                    err: "Incorrect argument count: expected "@
                        + crate::mathparse::chars::spec_dec(expected as nat) + ", got "@
                        + crate::mathparse::chars::spec_dec(got as nat),
                }),
                Error::F2IncorrectArgCount { expected, got } => r@ == (super::ErrorV::InvalidField {
                    name: "f2"@,
                    err: "Incorrect argument count: expected "@
                        + crate::mathparse::chars::spec_dec(expected as nat) + ", got "@
                        + crate::mathparse::chars::spec_dec(got as nat),
                }),
                Error::F3IncorrectArgCount { expected, got } => r@ == (super::ErrorV::InvalidField {
                    name: "f3"@,
                    err: "Incorrect argument count: expected "@
                        + crate::mathparse::chars::spec_dec(expected as nat) + ", got "@
                        + crate::mathparse::chars::spec_dec(got as nat),
                }),
                Error::Calculation(e) => r@ == super::ErrorV::Runtime(e@),
            },
    {
        match self {
            Error::F1Field(e) => super::Error::InvalidField {
                name: String::from_str("f1"),
                err: e,
            },
            Error::F2Field(e) => super::Error::InvalidField {
                name: String::from_str("f2"),
                err: e,
            },
            Error::F3Field(e) => super::Error::InvalidField {
                name: String::from_str("f3"),
                err: e,
            },
            Error::X12FromField(e) => super::Error::InvalidField {
                name: String::from_str("x12_from"),
                err: e,
            },
            Error::X12ToField(e) => super::Error::InvalidField {
                name: String::from_str("x12_to"),
                err: e,
            },
            Error::X13FromField(e) => super::Error::InvalidField {
                name: String::from_str("x13_from"),
                err: e,
            },
            Error::X13ToField(e) => super::Error::InvalidField {
                name: String::from_str("x13_to"),
                err: e,
            },
            Error::X23FromField(e) => super::Error::InvalidField {
                name: String::from_str("x23_from"),
                err: e,
            },
            Error::X23ToField(e) => super::Error::InvalidField {
                name: String::from_str("x23_to"),
                err: e,
            },
            Error::AreaEpsField(e) => super::Error::InvalidField {
                name: String::from_str("eps"),
                err: e,
            },
            Error::MaxIterCountField(e) => super::Error::InvalidField {
                name: String::from_str("max_iter_count"),
                err: e,
            },
            Error::F1IncorrectArgCount { expected, got } => {
                let mut err = String::from_str("Incorrect argument count: expected ");
                let ed = crate::mathparse::chars::usize_dec(expected);
                err.append(ed.as_str());
                err.append(", got ");
                let gd = crate::mathparse::chars::usize_dec(got);
                err.append(gd.as_str());
                super::Error::InvalidField { name: String::from_str("f1"), err }
            },
            Error::F2IncorrectArgCount { expected, got } => {
                let mut err = String::from_str("Incorrect argument count: expected ");
                let ed = crate::mathparse::chars::usize_dec(expected);
                err.append(ed.as_str());
                err.append(", got ");
                let gd = crate::mathparse::chars::usize_dec(got);
                err.append(gd.as_str());
                super::Error::InvalidField { name: String::from_str("f2"), err }
            },
            Error::F3IncorrectArgCount { expected, got } => {
                let mut err = String::from_str("Incorrect argument count: expected ");
                let ed = crate::mathparse::chars::usize_dec(expected);
                err.append(ed.as_str());
                err.append(", got ");
                let gd = crate::mathparse::chars::usize_dec(got);
                err.append(gd.as_str());
                super::Error::InvalidField { name: String::from_str("f3"), err }
            },
            Error::Calculation(e) => super::Error::Runtime(e),
        }
    }
}

/// The editable inputs of the curvilinear-triangle area solver, one text field per input.
#[derive(Debug, Clone)]
pub struct AreaView {
    pub f1_field: String,
    pub f2_field: String,
    pub f3_field: String,
    pub x12_from_field: String,
    pub x12_to_field: String,
    pub x13_from_field: String,
    pub x13_to_field: String,
    pub x23_from_field: String,
    pub x23_to_field: String,
    pub eps_field: String,
    pub max_iter_count_field: String,
}

impl Default for AreaView {
    /// The view with its example problem filled in.
    fn default() -> (r: AreaView)
        ensures
            r.f1_field@ == "exp(x)+2"@,
            r.f2_field@ == "-2x+8"@,
            r.f3_field@ == "-5/x"@,
            r.x12_from_field@ == "0"@,
            r.x12_to_field@ == "2"@,
            r.x13_from_field@ == "-4"@,
            r.x13_to_field@ == "-1"@,
            r.x23_from_field@ == "-2"@,
            r.x23_to_field@ == "-0.1"@,
            r.eps_field@ == "0.001"@,
            r.max_iter_count_field@ == "1000"@,
    {
        AreaView {
            f1_field: String::from_str("exp(x)+2"),
            f2_field: String::from_str("-2x+8"),
            f3_field: String::from_str("-5/x"),
            x12_from_field: String::from_str("0"),
            x12_to_field: String::from_str("2"),
            x13_from_field: String::from_str("-4"),
            x13_to_field: String::from_str("-1"),
            x23_from_field: String::from_str("-2"),
            x23_to_field: String::from_str("-0.1"),
            eps_field: String::from_str("0.001"),
            max_iter_count_field: String::from_str("1000"),
        }
    }
}

impl AreaView {
    /// The field names, in display order.
    pub fn get_fields(&self) -> (r: Vec<String>)
        ensures
            strs_view(r@) == seq![
                "f1"@,
                "f2"@,
                "f3"@,
                "x12_from"@,
                "x12_to"@,
                "x13_from"@,
                "x13_to"@,
                "x23_from"@,
                "x23_to"@,
                "eps"@,
                "max_iter_count"@,
            ],
    {
        let mut r: Vec<String> = Vec::new();
        r.push(String::from_str("f1"));
        r.push(String::from_str("f2"));
        r.push(String::from_str("f3"));
        r.push(String::from_str("x12_from"));
        r.push(String::from_str("x12_to"));
        r.push(String::from_str("x13_from"));
        r.push(String::from_str("x13_to"));
        r.push(String::from_str("x23_from"));
        r.push(String::from_str("x23_to"));
        r.push(String::from_str("eps"));
        r.push(String::from_str("max_iter_count"));
        proof {
            assert(strs_view(r@) =~= seq![
                "f1"@,
                "f2"@,
                "f3"@,
                "x12_from"@,
                "x12_to"@,
                "x13_from"@,
                "x13_to"@,
                "x23_from"@,
                "x23_to"@,
                "eps"@,
                "max_iter_count"@,
            ]);
        }
        r
    }

    /// Writes the named field; only the listed names exist.
    pub fn set_field(&mut self, name: &str, val: String) -> (r: Result<(), super::Error>)
        requires
            name@ == "f1"@ || name@ == "f2"@ || name@ == "f3"@ || name@ == "x12_from"@ || name@ == "x12_to"@ || name@ == "x13_from"@ || name@ == "x13_to"@ || name@ == "x23_from"@ || name@ == "x23_to"@ || name@ == "eps"@ || name@ == "max_iter_count"@,
        ensures
            r is Ok,
            name@ == "f1"@ ==> final(self).f1_field@ == val@,
            name@ != "f1"@ ==> final(self).f1_field == old(self).f1_field,
            name@ == "f2"@ ==> final(self).f2_field@ == val@,
            name@ != "f2"@ ==> final(self).f2_field == old(self).f2_field,
            name@ == "f3"@ ==> final(self).f3_field@ == val@,
            name@ != "f3"@ ==> final(self).f3_field == old(self).f3_field,
            name@ == "x12_from"@ ==> final(self).x12_from_field@ == val@,
            name@ != "x12_from"@ ==> final(self).x12_from_field == old(self).x12_from_field,
            name@ == "x12_to"@ ==> final(self).x12_to_field@ == val@,
            name@ != "x12_to"@ ==> final(self).x12_to_field == old(self).x12_to_field,
            name@ == "x13_from"@ ==> final(self).x13_from_field@ == val@,
            name@ != "x13_from"@ ==> final(self).x13_from_field == old(self).x13_from_field,
            name@ == "x13_to"@ ==> final(self).x13_to_field@ == val@,
            name@ != "x13_to"@ ==> final(self).x13_to_field == old(self).x13_to_field,
            name@ == "x23_from"@ ==> final(self).x23_from_field@ == val@,
            name@ != "x23_from"@ ==> final(self).x23_from_field == old(self).x23_from_field,
            name@ == "x23_to"@ ==> final(self).x23_to_field@ == val@,
            name@ != "x23_to"@ ==> final(self).x23_to_field == old(self).x23_to_field,
            name@ == "eps"@ ==> final(self).eps_field@ == val@,
            name@ != "eps"@ ==> final(self).eps_field == old(self).eps_field,
            name@ == "max_iter_count"@ ==> final(self).max_iter_count_field@ == val@,
            name@ != "max_iter_count"@ ==> final(self).max_iter_count_field == old(self).max_iter_count_field,
    {
        proof {
            reveal_strlit("f1");
            reveal_strlit("f2");
            reveal_strlit("f3");
            reveal_strlit("x12_from");
            reveal_strlit("x12_to");
            reveal_strlit("x13_from");
            reveal_strlit("x13_to");
            reveal_strlit("x23_from");
            reveal_strlit("x23_to");
            reveal_strlit("eps");
            reveal_strlit("max_iter_count");
            assert("f1"@.len() == 2);
            assert("f2"@.len() == 2);
            assert("f3"@.len() == 2);
            assert("x12_from"@.len() == 8);
            assert("x12_to"@.len() == 6);
            assert("x13_from"@.len() == 8);
            assert("x13_to"@.len() == 6);
            assert("x23_from"@.len() == 8);
            assert("x23_to"@.len() == 6);
            assert("eps"@.len() == 3);
            assert("max_iter_count"@.len() == 14);
            assert("f1"@[1] == '1' && "f2"@[1] == '2');
            assert("f1"@[1] == '1' && "f3"@[1] == '3');
            assert("f2"@[1] == '2' && "f3"@[1] == '3');
            assert("x12_from"@[2] == '2' && "x13_from"@[2] == '3');
            assert("x12_from"@[1] == '1' && "x23_from"@[1] == '2');
            assert("x12_to"@[2] == '2' && "x13_to"@[2] == '3');
            assert("x12_to"@[1] == '1' && "x23_to"@[1] == '2');
            assert("x13_from"@[1] == '1' && "x23_from"@[1] == '2');
            assert("x13_to"@[1] == '1' && "x23_to"@[1] == '2');
            assert("f1"@ != "f2"@);
            assert("f1"@ != "f3"@);
            assert("f1"@ != "x12_from"@);
            assert("f1"@ != "x12_to"@);
            assert("f1"@ != "x13_from"@);
            assert("f1"@ != "x13_to"@);
            assert("f1"@ != "x23_from"@);
            assert("f1"@ != "x23_to"@);
            assert("f1"@ != "eps"@);
            assert("f1"@ != "max_iter_count"@);
            assert("f2"@ != "f3"@);
            assert("f2"@ != "x12_from"@);
            assert("f2"@ != "x12_to"@);
            assert("f2"@ != "x13_from"@);
            assert("f2"@ != "x13_to"@);
            assert("f2"@ != "x23_from"@);
            assert("f2"@ != "x23_to"@);
            assert("f2"@ != "eps"@);
            assert("f2"@ != "max_iter_count"@);
            assert("f3"@ != "x12_from"@);
            assert("f3"@ != "x12_to"@);
            assert("f3"@ != "x13_from"@);
            assert("f3"@ != "x13_to"@);
            assert("f3"@ != "x23_from"@);
            assert("f3"@ != "x23_to"@);
            assert("f3"@ != "eps"@);
            assert("f3"@ != "max_iter_count"@);
            assert("x12_from"@ != "x12_to"@);
            assert("x12_from"@ != "x13_from"@);
            assert("x12_from"@ != "x13_to"@);
            assert("x12_from"@ != "x23_from"@);
            assert("x12_from"@ != "x23_to"@);
            assert("x12_from"@ != "eps"@);
            assert("x12_from"@ != "max_iter_count"@);
            assert("x12_to"@ != "x13_from"@);
            assert("x12_to"@ != "x13_to"@);
            assert("x12_to"@ != "x23_from"@);
            assert("x12_to"@ != "x23_to"@);
            assert("x12_to"@ != "eps"@);
            assert("x12_to"@ != "max_iter_count"@);
            assert("x13_from"@ != "x13_to"@);
            assert("x13_from"@ != "x23_from"@);
            assert("x13_from"@ != "x23_to"@);
            assert("x13_from"@ != "eps"@);
            assert("x13_from"@ != "max_iter_count"@);
            assert("x13_to"@ != "x23_from"@);
            assert("x13_to"@ != "x23_to"@);
            assert("x13_to"@ != "eps"@);
            assert("x13_to"@ != "max_iter_count"@);
            assert("x23_from"@ != "x23_to"@);
            assert("x23_from"@ != "eps"@);
            assert("x23_from"@ != "max_iter_count"@);
            assert("x23_to"@ != "eps"@);
            assert("x23_to"@ != "max_iter_count"@);
            assert("eps"@ != "max_iter_count"@);
        }
        if str_eq(name, "f1") {
            self.f1_field = val;
        } else if str_eq(name, "f2") {
            self.f2_field = val;
        } else if str_eq(name, "f3") {
            self.f3_field = val;
        } else if str_eq(name, "x12_from") {
            self.x12_from_field = val;
        } else if str_eq(name, "x12_to") {
            self.x12_to_field = val;
        } else if str_eq(name, "x13_from") {
            self.x13_from_field = val;
        } else if str_eq(name, "x13_to") {
            self.x13_to_field = val;
        } else if str_eq(name, "x23_from") {
            self.x23_from_field = val;
        } else if str_eq(name, "x23_to") {
            self.x23_to_field = val;
        } else if str_eq(name, "eps") {
            self.eps_field = val;
        } else if str_eq(name, "max_iter_count") {
            self.max_iter_count_field = val;
        } else {
        }
        Ok(())
    }

    /// Reads the named field; an unknown name reads nothing.
    pub fn get_field(&self, name: &str) -> (r: Option<&str>)
        ensures
            name@ == "f1"@ ==> (r matches Some(v) && v@ == self.f1_field@),
            name@ == "f2"@ ==> (r matches Some(v) && v@ == self.f2_field@),
            name@ == "f3"@ ==> (r matches Some(v) && v@ == self.f3_field@),
            name@ == "x12_from"@ ==> (r matches Some(v) && v@ == self.x12_from_field@),
            name@ == "x12_to"@ ==> (r matches Some(v) && v@ == self.x12_to_field@),
            name@ == "x13_from"@ ==> (r matches Some(v) && v@ == self.x13_from_field@),
            name@ == "x13_to"@ ==> (r matches Some(v) && v@ == self.x13_to_field@),
            name@ == "x23_from"@ ==> (r matches Some(v) && v@ == self.x23_from_field@),
            name@ == "x23_to"@ ==> (r matches Some(v) && v@ == self.x23_to_field@),
            name@ == "eps"@ ==> (r matches Some(v) && v@ == self.eps_field@),
            name@ == "max_iter_count"@ ==> (r matches Some(v) && v@ == self.max_iter_count_field@),
            name@ != "f1"@ && name@ != "f2"@ && name@ != "f3"@ && name@ != "x12_from"@ && name@ != "x12_to"@ && name@ != "x13_from"@ && name@ != "x13_to"@ && name@ != "x23_from"@ && name@ != "x23_to"@ && name@ != "eps"@ && name@ != "max_iter_count"@ ==> r is None,
    {
        proof {
            reveal_strlit("f1");
            reveal_strlit("f2");
            reveal_strlit("f3");
            reveal_strlit("x12_from");
            reveal_strlit("x12_to");
            reveal_strlit("x13_from");
            reveal_strlit("x13_to");
            reveal_strlit("x23_from");
            reveal_strlit("x23_to");
            reveal_strlit("eps");
            reveal_strlit("max_iter_count");
            assert("f1"@.len() == 2);
            assert("f2"@.len() == 2);
            assert("f3"@.len() == 2);
            assert("x12_from"@.len() == 8);
            assert("x12_to"@.len() == 6);
            assert("x13_from"@.len() == 8);
            assert("x13_to"@.len() == 6);
            assert("x23_from"@.len() == 8);
            assert("x23_to"@.len() == 6);
            assert("eps"@.len() == 3);
            assert("max_iter_count"@.len() == 14);
            assert("f1"@[1] == '1' && "f2"@[1] == '2');
            assert("f1"@[1] == '1' && "f3"@[1] == '3');
            assert("f2"@[1] == '2' && "f3"@[1] == '3');
            assert("x12_from"@[2] == '2' && "x13_from"@[2] == '3');
            assert("x12_from"@[1] == '1' && "x23_from"@[1] == '2');
            assert("x12_to"@[2] == '2' && "x13_to"@[2] == '3');
            assert("x12_to"@[1] == '1' && "x23_to"@[1] == '2');
            assert("x13_from"@[1] == '1' && "x23_from"@[1] == '2');
            assert("x13_to"@[1] == '1' && "x23_to"@[1] == '2');
            assert("f1"@ != "f2"@);
            assert("f1"@ != "f3"@);
            assert("f1"@ != "x12_from"@);
            assert("f1"@ != "x12_to"@);
            assert("f1"@ != "x13_from"@);
            assert("f1"@ != "x13_to"@);
            assert("f1"@ != "x23_from"@);
            assert("f1"@ != "x23_to"@);
            assert("f1"@ != "eps"@);
            assert("f1"@ != "max_iter_count"@);
            assert("f2"@ != "f3"@);
            assert("f2"@ != "x12_from"@);
            assert("f2"@ != "x12_to"@);
            assert("f2"@ != "x13_from"@);
            assert("f2"@ != "x13_to"@);
            assert("f2"@ != "x23_from"@);
            assert("f2"@ != "x23_to"@);
            assert("f2"@ != "eps"@);
            assert("f2"@ != "max_iter_count"@);
            assert("f3"@ != "x12_from"@);
            assert("f3"@ != "x12_to"@);
            assert("f3"@ != "x13_from"@);
            assert("f3"@ != "x13_to"@);
            assert("f3"@ != "x23_from"@);
            assert("f3"@ != "x23_to"@);
            assert("f3"@ != "eps"@);
            assert("f3"@ != "max_iter_count"@);
            assert("x12_from"@ != "x12_to"@);
            assert("x12_from"@ != "x13_from"@);
            assert("x12_from"@ != "x13_to"@);
            assert("x12_from"@ != "x23_from"@);
            assert("x12_from"@ != "x23_to"@);
            assert("x12_from"@ != "eps"@);
            assert("x12_from"@ != "max_iter_count"@);
            assert("x12_to"@ != "x13_from"@);
            assert("x12_to"@ != "x13_to"@);
            assert("x12_to"@ != "x23_from"@);
            assert("x12_to"@ != "x23_to"@);
            assert("x12_to"@ != "eps"@);
            assert("x12_to"@ != "max_iter_count"@);
            assert("x13_from"@ != "x13_to"@);
            assert("x13_from"@ != "x23_from"@);
            assert("x13_from"@ != "x23_to"@);
            assert("x13_from"@ != "eps"@);
            assert("x13_from"@ != "max_iter_count"@);
            assert("x13_to"@ != "x23_from"@);
            assert("x13_to"@ != "x23_to"@);
            assert("x13_to"@ != "eps"@);
            assert("x13_to"@ != "max_iter_count"@);
            assert("x23_from"@ != "x23_to"@);
            assert("x23_from"@ != "eps"@);
            assert("x23_from"@ != "max_iter_count"@);
            assert("x23_to"@ != "eps"@);
            assert("x23_to"@ != "max_iter_count"@);
            assert("eps"@ != "max_iter_count"@);
        }
        if str_eq(name, "f1") {
            Some(self.f1_field.as_str())
        } else if str_eq(name, "f2") {
            Some(self.f2_field.as_str())
        } else if str_eq(name, "f3") {
            Some(self.f3_field.as_str())
        } else if str_eq(name, "x12_from") {
            Some(self.x12_from_field.as_str())
        } else if str_eq(name, "x12_to") {
            Some(self.x12_to_field.as_str())
        } else if str_eq(name, "x13_from") {
            Some(self.x13_from_field.as_str())
        } else if str_eq(name, "x13_to") {
            Some(self.x13_to_field.as_str())
        } else if str_eq(name, "x23_from") {
            Some(self.x23_from_field.as_str())
        } else if str_eq(name, "x23_to") {
            Some(self.x23_to_field.as_str())
        } else if str_eq(name, "eps") {
            Some(self.eps_field.as_str())
        } else if str_eq(name, "max_iter_count") {
            Some(self.max_iter_count_field.as_str())
        } else {
            None
        }
    }
}

} // verus!
