//! The input form of the Fredholm first-kind solver.

use vstd::prelude::*;
use vstd::string::StringExecFns;

use super::form::{FieldsIter, Form};

verus! {

/// Holds the editable fields of the Fredholm first-kind problem: the
/// kernel and right side formulas, the interval, the tolerance, the grid
/// size, the iteration cap, and where to save the result.
pub struct Fredholm1stProblemCreator {
    form: Form,
}

impl Fredholm1stProblemCreator {
    pub closed spec fn spec_form(&self) -> Form {
        self.form
    }

    pub open spec fn wf(&self) -> bool {
        self.spec_form().wf()
    }

    /// The filled-in form, for the caller that builds the problem.
    pub fn form(&self) -> (r: &Form)
        ensures
            *r == self.spec_form(),
    {
        &self.form
    }

    /// The fields, in display order.
    pub fn fields(&self) -> (r: FieldsIter<'_>)
        ensures
            r.form() == self.spec_form(),
            r.pos() == 0,
    {
        self.form.get_fields()
    }

    /// Writes one field.
    pub fn set_field(&mut self, name: &str, val: String)
        requires
            old(self).wf(),
        ensures
            final(self).wf(),
            final(self).spec_form().names() == old(self).spec_form().names(),
            forall|i: int|
                0 <= i < old(self).spec_form().vals().len() ==> final(self).spec_form().vals()[i]
                    == (if old(self).spec_form().names()[i] == name@ {
                    val@
                } else {
                    old(self).spec_form().vals()[i]
                }),
    {
        self.form.set(name, val)
    }
}

impl Default for Fredholm1stProblemCreator {
    /// The form with its example problem filled in.
    #[verifier::rlimit(50)]
    fn default() -> (r: Fredholm1stProblemCreator)
        ensures
            r.wf(),
            r.spec_form().names() == seq![
                "kernel"@,
                "right_side"@,
                "from"@,
                "to"@,
                "eps"@,
                "n"@,
                "max_iter_count"@,
                "dest_file"@,
            ],
            r.spec_form().vals() == seq![
                "abs(x-s)"@,
                "pow(x,2)"@,
                "-1"@,
                "1"@,
                "1e-8"@,
                "50"@,
                "10000"@,
                "y.csv"@,
            ],
    {
        let mut names: Vec<String> = Vec::new();
        names.push(String::from_str("kernel"));
        names.push(String::from_str("right_side"));
        names.push(String::from_str("from"));
        names.push(String::from_str("to"));
        names.push(String::from_str("eps"));
        names.push(String::from_str("n"));
        names.push(String::from_str("max_iter_count"));
        names.push(String::from_str("dest_file"));
        let mut form = Form::new(names);
        proof {
            reveal_strlit("kernel");
            reveal_strlit("right_side");
            reveal_strlit("from");
            reveal_strlit("to");
            reveal_strlit("eps");
            reveal_strlit("n");
            reveal_strlit("max_iter_count");
            reveal_strlit("dest_file");
            assert("kernel"@.len() == 6);
            assert("right_side"@.len() == 10);
            assert("from"@.len() == 4);
            assert("to"@.len() == 2);
            assert("eps"@.len() == 3);
            assert("n"@.len() == 1);
            assert("max_iter_count"@.len() == 14);
            assert("dest_file"@.len() == 9);
            assert(form.names() =~= seq![
                "kernel"@,
                "right_side"@,
                "from"@,
                "to"@,
                "eps"@,
                "n"@,
                "max_iter_count"@,
                "dest_file"@,
            ]);
            assert("kernel"@ != "right_side"@);
            assert("kernel"@ != "from"@);
            assert("kernel"@ != "to"@);
            assert("kernel"@ != "eps"@);
            assert("kernel"@ != "n"@);
            assert("kernel"@ != "max_iter_count"@);
            assert("kernel"@ != "dest_file"@);
            assert("right_side"@ != "from"@);
            assert("right_side"@ != "to"@);
            assert("right_side"@ != "eps"@);
            assert("right_side"@ != "n"@);
            assert("right_side"@ != "max_iter_count"@);
            assert("right_side"@ != "dest_file"@);
            assert("from"@ != "to"@);
            assert("from"@ != "eps"@);
            assert("from"@ != "n"@);
            assert("from"@ != "max_iter_count"@);
            assert("from"@ != "dest_file"@);
            assert("to"@ != "eps"@);
            assert("to"@ != "n"@);
            assert("to"@ != "max_iter_count"@);
            assert("to"@ != "dest_file"@);
            assert("eps"@ != "n"@);
            assert("eps"@ != "max_iter_count"@);
            assert("eps"@ != "dest_file"@);
            assert("n"@ != "max_iter_count"@);
            assert("n"@ != "dest_file"@);
            assert("max_iter_count"@ != "dest_file"@);
        }
        form.set("kernel", String::from_str("abs(x-s)"));
        proof {
            assert(form.vals()[0] == "abs(x-s)"@);
        }
        form.set("right_side", String::from_str("pow(x,2)"));
        proof {
            assert(form.vals()[0] == "abs(x-s)"@);
            assert(form.vals()[1] == "pow(x,2)"@);
        }
        form.set("from", String::from_str("-1"));
        proof {
            assert(form.vals()[0] == "abs(x-s)"@);
            assert(form.vals()[1] == "pow(x,2)"@);
            assert(form.vals()[2] == "-1"@);
        }
        form.set("to", String::from_str("1"));
        proof {
            assert(form.vals()[0] == "abs(x-s)"@);
            assert(form.vals()[1] == "pow(x,2)"@);
            assert(form.vals()[2] == "-1"@);
            assert(form.vals()[3] == "1"@);
        }
        form.set("eps", String::from_str("1e-8"));
        proof {
            assert(form.vals()[0] == "abs(x-s)"@);
            assert(form.vals()[1] == "pow(x,2)"@);
            assert(form.vals()[2] == "-1"@);
            assert(form.vals()[3] == "1"@);
            assert(form.vals()[4] == "1e-8"@);
        }
        form.set("n", String::from_str("50"));
        proof {
            assert(form.vals()[0] == "abs(x-s)"@);
            assert(form.vals()[1] == "pow(x,2)"@);
            assert(form.vals()[2] == "-1"@);
            assert(form.vals()[3] == "1"@);
            assert(form.vals()[4] == "1e-8"@);
            assert(form.vals()[5] == "50"@);
        }
        form.set("max_iter_count", String::from_str("10000"));
        proof {
            assert(form.vals()[0] == "abs(x-s)"@);
            assert(form.vals()[1] == "pow(x,2)"@);
            assert(form.vals()[2] == "-1"@);
            assert(form.vals()[3] == "1"@);
            assert(form.vals()[4] == "1e-8"@);
            assert(form.vals()[5] == "50"@);
            assert(form.vals()[6] == "10000"@);
        }
        form.set("dest_file", String::from_str("y.csv"));
        proof {
            assert(form.vals()[0] == "abs(x-s)"@);
            assert(form.vals()[1] == "pow(x,2)"@);
            assert(form.vals()[2] == "-1"@);
            assert(form.vals()[3] == "1"@);
            assert(form.vals()[4] == "1e-8"@);
            assert(form.vals()[5] == "50"@);
            assert(form.vals()[6] == "10000"@);
            assert(form.vals()[7] == "y.csv"@);
        }
        proof {
            assert(form.vals() =~= seq![
                "abs(x-s)"@,
                "pow(x,2)"@,
                "-1"@,
                "1"@,
                "1e-8"@,
                "50"@,
                "10000"@,
                "y.csv"@,
            ]);
        }
        Fredholm1stProblemCreator { form }
    }
}

} // verus!
