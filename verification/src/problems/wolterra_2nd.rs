//! The input form of the alternate Volterra second-kind solver.

use vstd::prelude::*;
use vstd::string::StringExecFns;

use super::form::{FieldsIter, Form};

verus! {

/// Holds the editable fields of the alternate Volterra second-kind
/// problem: the kernel and right side formulas, the interval, the
/// multiplier and the grid size.
pub struct Wolterra2ndProblemCreator {
    form: Form,
}

impl Wolterra2ndProblemCreator {
    pub closed spec fn spec_form(&self) -> Form {
        self.form
    }

    pub open spec fn wf(&self) -> bool {
        self.spec_form().wf()
    }

    /// The filled-in form, for the caller that builds the problem.
    pub fn form(&self) -> (r: &Form)
        ensures
            *r == self.spec_form(),
    {
        &self.form
    }

    /// The fields, in display order.
    pub fn fields(&self) -> (r: FieldsIter<'_>)
        ensures
            r.form() == self.spec_form(),
            r.pos() == 0,
    {
        self.form.get_fields()
    }

    /// Writes one field.
    pub fn set_field(&mut self, name: &str, val: String)
        requires
            old(self).wf(),
        ensures
            final(self).wf(),
            final(self).spec_form().names() == old(self).spec_form().names(),
            forall|i: int|
                0 <= i < old(self).spec_form().vals().len() ==> final(self).spec_form().vals()[i]
                    == (if old(self).spec_form().names()[i] == name@ {
                    val@
                } else {
                    old(self).spec_form().vals()[i]
                }),
    {
        self.form.set(name, val)
    }
}

impl Default for Wolterra2ndProblemCreator {
    /// The form with its example problem filled in.
    #[verifier::rlimit(50)]
    fn default() -> (r: Wolterra2ndProblemCreator)
        ensures
            r.wf(),
            r.spec_form().names() == seq![
                "kernel"@,
                "right_side"@,
                "from"@,
                "to"@,
                "lambda"@,
                "n"@,
            ],
            r.spec_form().vals() == seq![
                "exp(x-s)"@,
                "1"@,
                "0"@,
                "1"@,
                "1"@,
                "50"@,
            ],
    {
        let mut names: Vec<String> = Vec::new();
        names.push(String::from_str("kernel"));
        names.push(String::from_str("right_side"));
        names.push(String::from_str("from"));
        names.push(String::from_str("to"));
        names.push(String::from_str("lambda"));
        names.push(String::from_str("n"));
        let mut form = Form::new(names);
        proof {
            reveal_strlit("kernel");
            reveal_strlit("right_side");
            reveal_strlit("from");
            reveal_strlit("to");
            reveal_strlit("lambda");
            reveal_strlit("n");
            assert("kernel"@.len() == 6);
            assert("right_side"@.len() == 10);
            assert("from"@.len() == 4);
            assert("to"@.len() == 2);
            assert("lambda"@.len() == 6);
            assert("n"@.len() == 1);
            assert("kernel"@[0] == 'k' && "lambda"@[0] == 'l');
            assert(form.names() =~= seq![
                "kernel"@,
                "right_side"@,
                "from"@,
                "to"@,
                "lambda"@,
                "n"@,
            ]);
            assert("kernel"@ != "right_side"@);
            assert("kernel"@ != "from"@);
            assert("kernel"@ != "to"@);
            assert("kernel"@ != "lambda"@);
            assert("kernel"@ != "n"@);
            assert("right_side"@ != "from"@);
            assert("right_side"@ != "to"@);
            assert("right_side"@ != "lambda"@);
            assert("right_side"@ != "n"@);
            assert("from"@ != "to"@);
            assert("from"@ != "lambda"@);
            assert("from"@ != "n"@);
            assert("to"@ != "lambda"@);
            assert("to"@ != "n"@);
            assert("lambda"@ != "n"@);
        }
        form.set("kernel", String::from_str("exp(x-s)"));
        proof {
            assert(form.vals()[0] == "exp(x-s)"@);
        }
        form.set("right_side", String::from_str("1"));
        proof {
            assert(form.vals()[0] == "exp(x-s)"@);
            assert(form.vals()[1] == "1"@);
        }
        form.set("from", String::from_str("0"));
        proof {
            assert(form.vals()[0] == "exp(x-s)"@);
            assert(form.vals()[1] == "1"@);
            assert(form.vals()[2] == "0"@);
        }
        form.set("to", String::from_str("1"));
        proof {
            assert(form.vals()[0] == "exp(x-s)"@);
            assert(form.vals()[1] == "1"@);
            assert(form.vals()[2] == "0"@);
            assert(form.vals()[3] == "1"@);
        }
        form.set("lambda", String::from_str("1"));
        proof {
            assert(form.vals()[0] == "exp(x-s)"@);
            assert(form.vals()[1] == "1"@);
            assert(form.vals()[2] == "0"@);
            assert(form.vals()[3] == "1"@);
            assert(form.vals()[4] == "1"@);
        }
        form.set("n", String::from_str("50"));
        proof {
            assert(form.vals()[0] == "exp(x-s)"@);
            assert(form.vals()[1] == "1"@);
            assert(form.vals()[2] == "0"@);
            assert(form.vals()[3] == "1"@);
            assert(form.vals()[4] == "1"@);
            assert(form.vals()[5] == "50"@);
        }
        proof {
            assert(form.vals() =~= seq![
                "exp(x-s)"@,
                "1"@,
                "0"@,
                "1"@,
                "1"@,
                "50"@,
            ]);
        }
        Wolterra2ndProblemCreator { form }
    }
}

} // verus!
