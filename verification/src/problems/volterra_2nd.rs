//! The input form of the Volterra second-kind solver.

use vstd::prelude::*;
use vstd::string::StringExecFns;

use super::form::{FieldsIter, Form};

verus! {

/// Holds the editable fields of the Volterra second-kind problem: the
/// kernel and right side formulas, the interval, the multiplier, the grid
/// size, and where to save the result.
pub struct Volterra2ndProblemCreator {
    form: Form,
}

impl Volterra2ndProblemCreator {
    pub closed spec fn spec_form(&self) -> Form {
        self.form
    }

    pub open spec fn wf(&self) -> bool {
        self.spec_form().wf()
    }

    /// The filled-in form, for the caller that builds the problem.
    pub fn form(&self) -> (r: &Form)
        ensures
            *r == self.spec_form(),
    {
        &self.form
    }

    /// The fields, in display order.
    pub fn fields(&self) -> (r: FieldsIter<'_>)
        ensures
            r.form() == self.spec_form(),
            r.pos() == 0,
    {
        self.form.get_fields()
    }

    /// Writes one field.
    pub fn set_field(&mut self, name: &str, val: String)
        requires
            old(self).wf(),
        ensures
            final(self).wf(),
            final(self).spec_form().names() == old(self).spec_form().names(),
            forall|i: int|
                0 <= i < old(self).spec_form().vals().len() ==> final(self).spec_form().vals()[i]
                    == (if old(self).spec_form().names()[i] == name@ {
                    val@
                } else {
                    old(self).spec_form().vals()[i]
                }),
    {
        self.form.set(name, val)
    }
}

impl Default for Volterra2ndProblemCreator {
    /// The form with its example problem filled in.
    #[verifier::rlimit(50)]
    fn default() -> (r: Volterra2ndProblemCreator)
        ensures
            r.wf(),
            r.spec_form().names() == seq![
                "kernel"@,
                "right_side"@,
                "from"@,
                "to"@,
                "lambda"@,
                "n"@,
                "dest_file"@,
            ],
            r.spec_form().vals() == seq![
                "exp(x-s)"@,
                "1"@,
                "0"@,
                "1"@,
                "1"@,
                "50"@,
                "y.csv"@,
            ],
    {
        let mut names: Vec<String> = Vec::new();
        names.push(String::from_str("kernel"));
        names.push(String::from_str("right_side"));
        names.push(String::from_str("from"));
        names.push(String::from_str("to"));
        names.push(String::from_str("lambda"));
        names.push(String::from_str("n"));
        names.push(String::from_str("dest_file"));
        let mut form = Form::new(names);
        proof {
            reveal_strlit("kernel");
            reveal_strlit("right_side");
            reveal_strlit("from");
            reveal_strlit("to");
            reveal_strlit("lambda");
            reveal_strlit("n");
            reveal_strlit("dest_file");
            assert("kernel"@.len() == 6);
            assert("right_side"@.len() == 10);
            assert("from"@.len() == 4);
            assert("to"@.len() == 2);
            assert("lambda"@.len() == 6);
            assert("n"@.len() == 1);
            assert("dest_file"@.len() == 9);
            assert("kernel"@[0] == 'k' && "lambda"@[0] == 'l');
            assert(form.names() =~= seq![
                "kernel"@,
                "right_side"@,
                "from"@,
                "to"@,
                "lambda"@,
                "n"@,
                "dest_file"@,
            ]);
            assert("kernel"@ != "right_side"@);
            assert("kernel"@ != "from"@);
            assert("kernel"@ != "to"@);
            assert("kernel"@ != "lambda"@);
            assert("kernel"@ != "n"@);
            assert("kernel"@ != "dest_file"@);
            assert("right_side"@ != "from"@);
            assert("right_side"@ != "to"@);
            assert("right_side"@ != "lambda"@);
            assert("right_side"@ != "n"@);
            assert("right_side"@ != "dest_file"@);
            assert("from"@ != "to"@);
            assert("from"@ != "lambda"@);
            assert("from"@ != "n"@);
            assert("from"@ != "dest_file"@);
            assert("to"@ != "lambda"@);
            assert("to"@ != "n"@);
            assert("to"@ != "dest_file"@);
            assert("lambda"@ != "n"@);
            assert("lambda"@ != "dest_file"@);
            assert("n"@ != "dest_file"@);
        }
        form.set("kernel", String::from_str("exp(x-s)"));
        proof {
            assert(form.vals()[0] == "exp(x-s)"@);
        }
        form.set("right_side", String::from_str("1"));
        proof {
            assert(form.vals()[0] == "exp(x-s)"@);
            assert(form.vals()[1] == "1"@);
        }
        form.set("from", String::from_str("0"));
        proof {
            assert(form.vals()[0] == "exp(x-s)"@);
            assert(form.vals()[1] == "1"@);
            assert(form.vals()[2] == "0"@);
        }
        form.set("to", String::from_str("1"));
        proof {
            assert(form.vals()[0] == "exp(x-s)"@);
            assert(form.vals()[1] == "1"@);
            assert(form.vals()[2] == "0"@);
            assert(form.vals()[3] == "1"@);
        }
        form.set("lambda", String::from_str("1"));
        proof {
            assert(form.vals()[0] == "exp(x-s)"@);
            assert(form.vals()[1] == "1"@);
            assert(form.vals()[2] == "0"@);
            assert(form.vals()[3] == "1"@);
            assert(form.vals()[4] == "1"@);
        }
        form.set("n", String::from_str("50"));
        proof {
            assert(form.vals()[0] == "exp(x-s)"@);
            assert(form.vals()[1] == "1"@);
            assert(form.vals()[2] == "0"@);
            assert(form.vals()[3] == "1"@);
            assert(form.vals()[4] == "1"@);
            assert(form.vals()[5] == "50"@);
        }
        form.set("dest_file", String::from_str("y.csv"));
        proof {
            assert(form.vals()[0] == "exp(x-s)"@);
            assert(form.vals()[1] == "1"@);
            assert(form.vals()[2] == "0"@);
            assert(form.vals()[3] == "1"@);
            assert(form.vals()[4] == "1"@);
            assert(form.vals()[5] == "50"@);
            assert(form.vals()[6] == "y.csv"@);
        }
        proof {
            assert(form.vals() =~= seq![
                "exp(x-s)"@,
                "1"@,
                "0"@,
                "1"@,
                "1"@,
                "50"@,
                "y.csv"@,
            ]);
        }
        Volterra2ndProblemCreator { form }
    }
}

} // verus!
