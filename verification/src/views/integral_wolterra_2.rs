//! The Volterra second-kind solver's view: its editable fields and its field-level errors.

use vstd::prelude::*;
use vstd::string::StringExecFns;

use crate::mathparse::chars::str_eq;
use crate::mathparse::runtime::strs_view;

verus! {

/// A field of this view that cannot be used, or a failed computation.
#[derive(Debug, Clone)]
pub enum Error {
    KernelField(String),
    RightSideField(String),
    FromField(String),
    ToField(String),
    NField(String),
    LambdaField(String),
    SaveFilePathField(String),
    Calculation(String),
}

impl Error {
    /// The view-level report of this failure: field errors name
    /// their field, the rest surfaces as a runtime failure.
    pub fn to_view_error(self) -> (r: super::Error)
        ensures
            match self {
                Error::KernelField(e) => r@ == (super::ErrorV::InvalidField { name: "kernel"@, err: e@ }),
                Error::RightSideField(e) => r@ == (super::ErrorV::InvalidField { name: "right_side"@, err: e@ }),
                Error::FromField(e) => r@ == (super::ErrorV::InvalidField { name: "from"@, err: e@ }),
                Error::ToField(e) => r@ == (super::ErrorV::InvalidField { name: "to"@, err: e@ }),
                Error::NField(e) => r@ == (super::ErrorV::InvalidField { name: "n"@, err: e@ }),
                Error::LambdaField(e) => r@ == (super::ErrorV::InvalidField { name: "lambda"@, err: e@ }),
                Error::SaveFilePathField(e) => r@ == (super::ErrorV::InvalidField { name: "save_file_path"@, err: e@ }),
                Error::Calculation(e) => r@ == super::ErrorV::Runtime(e@),
            },
    {
        match self {
            Error::KernelField(e) => super::Error::InvalidField {
                name: String::from_str("kernel"),
                err: e,
            },
            Error::RightSideField(e) => super::Error::InvalidField {
                name: String::from_str("right_side"),
                err: e,
            },
            Error::FromField(e) => super::Error::InvalidField {
                name: String::from_str("from"),
                err: e,
            },
            Error::ToField(e) => super::Error::InvalidField {
                name: String::from_str("to"),
                err: e,
            },
            Error::NField(e) => super::Error::InvalidField {
                name: String::from_str("n"),
                err: e,
            },
            Error::LambdaField(e) => super::Error::InvalidField {
                name: String::from_str("lambda"),
                err: e,
            },
            Error::SaveFilePathField(e) => super::Error::InvalidField {
                name: String::from_str("save_file_path"),
                err: e,
            },
            Error::Calculation(e) => super::Error::Runtime(e),
        }
    }
}

/// The editable inputs of the Volterra second-kind solver, one text field per input.
#[derive(Debug, Clone)]
pub struct Wolterra2View {
    pub kernel_field: String,
    pub right_side_field: String,
    pub from_field: String,
    pub to_field: String,
    pub lambda_field: String,
    pub n_field: String,
    pub save_file_path_field: String,
}

impl Default for Wolterra2View {
    /// The view with its example problem filled in.
    fn default() -> (r: Wolterra2View)
        ensures
            r.kernel_field@ == "exp(x-s)"@,
            r.right_side_field@ == "1"@,
            r.from_field@ == "0"@,
            r.to_field@ == "1"@,
            r.lambda_field@ == "1"@,
            r.n_field@ == "50"@,
            r.save_file_path_field@ == "./func.csv"@,
    {
        Wolterra2View {
            kernel_field: String::from_str("exp(x-s)"),
            right_side_field: String::from_str("1"),
            from_field: String::from_str("0"),
            to_field: String::from_str("1"),
            lambda_field: String::from_str("1"),
            n_field: String::from_str("50"),
            save_file_path_field: String::from_str("./func.csv"),
        }
    }
}

impl Wolterra2View {
    /// The field names, in display order.
    pub fn get_fields(&self) -> (r: Vec<String>)
        ensures
            strs_view(r@) == seq![
                "kernel"@,
                "right_side"@,
                "from"@,
                "to"@,
                "lambda"@,
                "n"@,
                "save_file_path"@,
            ],
    {
        let mut r: Vec<String> = Vec::new();
        r.push(String::from_str("kernel"));
        r.push(String::from_str("right_side"));
        r.push(String::from_str("from"));
        r.push(String::from_str("to"));
        r.push(String::from_str("lambda"));
        r.push(String::from_str("n"));
        r.push(String::from_str("save_file_path"));
        proof {
            assert(strs_view(r@) =~= seq![
                "kernel"@,
                "right_side"@,
                "from"@,
                "to"@,
                "lambda"@,
                "n"@,
                "save_file_path"@,
            ]);
        }
        r
    }

    /// Writes the named field; only the listed names exist.
    pub fn set_field(&mut self, name: &str, val: String) -> (r: Result<(), super::Error>)
        requires
            name@ == "kernel"@ || name@ == "right_side"@ || name@ == "from"@ || name@ == "to"@ || name@ == "lambda"@ || name@ == "n"@ || name@ == "save_file_path"@,
        ensures
            r is Ok,
            name@ == "kernel"@ ==> final(self).kernel_field@ == val@,
            name@ != "kernel"@ ==> final(self).kernel_field == old(self).kernel_field,
            name@ == "right_side"@ ==> final(self).right_side_field@ == val@,
            name@ != "right_side"@ ==> final(self).right_side_field == old(self).right_side_field,
            name@ == "from"@ ==> final(self).from_field@ == val@,
            name@ != "from"@ ==> final(self).from_field == old(self).from_field,
            name@ == "to"@ ==> final(self).to_field@ == val@,
            name@ != "to"@ ==> final(self).to_field == old(self).to_field,
            name@ == "lambda"@ ==> final(self).lambda_field@ == val@,
            name@ != "lambda"@ ==> final(self).lambda_field == old(self).lambda_field,
            name@ == "n"@ ==> final(self).n_field@ == val@,
            name@ != "n"@ ==> final(self).n_field == old(self).n_field,
            name@ == "save_file_path"@ ==> final(self).save_file_path_field@ == val@,
            name@ != "save_file_path"@ ==> final(self).save_file_path_field == old(self).save_file_path_field,
    {
        proof {
            reveal_strlit("kernel");
            reveal_strlit("right_side");
            reveal_strlit("from");
            reveal_strlit("to");
            reveal_strlit("lambda");
            reveal_strlit("n");
            reveal_strlit("save_file_path");
            assert("kernel"@.len() == 6);
            assert("right_side"@.len() == 10);
            assert("from"@.len() == 4);
            assert("to"@.len() == 2);
            assert("lambda"@.len() == 6);
            assert("n"@.len() == 1);
            assert("save_file_path"@.len() == 14);
            assert("kernel"@[0] == 'k' && "lambda"@[0] == 'l');
            assert("kernel"@ != "right_side"@);
            assert("kernel"@ != "from"@);
            assert("kernel"@ != "to"@);
            assert("kernel"@ != "lambda"@);
            assert("kernel"@ != "n"@);
            assert("kernel"@ != "save_file_path"@);
            assert("right_side"@ != "from"@);
            assert("right_side"@ != "to"@);
            assert("right_side"@ != "lambda"@);
            assert("right_side"@ != "n"@);
            assert("right_side"@ != "save_file_path"@);
            assert("from"@ != "to"@);
            assert("from"@ != "lambda"@);
            assert("from"@ != "n"@);
            assert("from"@ != "save_file_path"@);
            assert("to"@ != "lambda"@);
            assert("to"@ != "n"@);
            assert("to"@ != "save_file_path"@);
            assert("lambda"@ != "n"@);
            assert("lambda"@ != "save_file_path"@);
            assert("n"@ != "save_file_path"@);
        }
        if str_eq(name, "kernel") {
            self.kernel_field = val;
        } else if str_eq(name, "right_side") {
            self.right_side_field = val;
        } else if str_eq(name, "from") {
            self.from_field = val;
        } else if str_eq(name, "to") {
            self.to_field = val;
        } else if str_eq(name, "lambda") {
            self.lambda_field = val;
        } else if str_eq(name, "n") {
            self.n_field = val;
        } else if str_eq(name, "save_file_path") {
            self.save_file_path_field = val;
        } else {
        }
        Ok(())
    }

    /// Reads the named field; an unknown name reads nothing.
    pub fn get_field(&self, name: &str) -> (r: Option<&str>)
        ensures
            name@ == "kernel"@ ==> (r matches Some(v) && v@ == self.kernel_field@),
            name@ == "right_side"@ ==> (r matches Some(v) && v@ == self.right_side_field@),
            name@ == "from"@ ==> (r matches Some(v) && v@ == self.from_field@),
            name@ == "to"@ ==> (r matches Some(v) && v@ == self.to_field@),
            name@ == "lambda"@ ==> (r matches Some(v) && v@ == self.lambda_field@),
            name@ == "n"@ ==> (r matches Some(v) && v@ == self.n_field@),
            name@ == "save_file_path"@ ==> (r matches Some(v) && v@ == self.save_file_path_field@),
            name@ != "kernel"@ && name@ != "right_side"@ && name@ != "from"@ && name@ != "to"@ && name@ != "lambda"@ && name@ != "n"@ && name@ != "save_file_path"@ ==> r is None,
    {
        proof {
            reveal_strlit("kernel");
            reveal_strlit("right_side");
            reveal_strlit("from");
            reveal_strlit("to");
            reveal_strlit("lambda");
            reveal_strlit("n");
            reveal_strlit("save_file_path");
            assert("kernel"@.len() == 6);
            assert("right_side"@.len() == 10);
            assert("from"@.len() == 4);
            assert("to"@.len() == 2);
            assert("lambda"@.len() == 6);
            assert("n"@.len() == 1);
            assert("save_file_path"@.len() == 14);
            assert("kernel"@[0] == 'k' && "lambda"@[0] == 'l');
            assert("kernel"@ != "right_side"@);
            assert("kernel"@ != "from"@);
            assert("kernel"@ != "to"@);
            assert("kernel"@ != "lambda"@);
            assert("kernel"@ != "n"@);
            assert("kernel"@ != "save_file_path"@);
            assert("right_side"@ != "from"@);
            assert("right_side"@ != "to"@);
            assert("right_side"@ != "lambda"@);
            assert("right_side"@ != "n"@);
            assert("right_side"@ != "save_file_path"@);
            assert("from"@ != "to"@);
            assert("from"@ != "lambda"@);
            assert("from"@ != "n"@);
            assert("from"@ != "save_file_path"@);
            assert("to"@ != "lambda"@);
            assert("to"@ != "n"@);
            assert("to"@ != "save_file_path"@);
            assert("lambda"@ != "n"@);
            assert("lambda"@ != "save_file_path"@);
            assert("n"@ != "save_file_path"@);
        }
        if str_eq(name, "kernel") {
            Some(self.kernel_field.as_str())
        } else if str_eq(name, "right_side") {
            Some(self.right_side_field.as_str())
        } else if str_eq(name, "from") {
            Some(self.from_field.as_str())
        } else if str_eq(name, "to") {
            Some(self.to_field.as_str())
        } else if str_eq(name, "lambda") {
            Some(self.lambda_field.as_str())
        } else if str_eq(name, "n") {
            Some(self.n_field.as_str())
        } else if str_eq(name, "save_file_path") {
            Some(self.save_file_path_field.as_str())
        } else {
            None
        }
    }
}

} // verus!
