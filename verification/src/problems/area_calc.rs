//! The input form of the curvilinear-triangle area solver.

use vstd::prelude::*;
use vstd::string::StringExecFns;

use super::form::{FieldsIter, Form};

verus! {

/// Holds the editable fields of the area problem: the three bounding
/// curves, a bracket for each pairwise intersection, the tolerance and
/// the iteration cap.
pub struct AreaCalcProblemCreator {
    form: Form,
}

impl AreaCalcProblemCreator {
    pub closed spec fn spec_form(&self) -> Form {
        self.form
    }

    pub open spec fn wf(&self) -> bool {
        self.spec_form().wf()
    }

    /// The filled-in form, for the caller that builds the problem.
    pub fn form(&self) -> (r: &Form)
        ensures
            *r == self.spec_form(),
    {
        &self.form
    }

    /// The fields, in display order.
    pub fn fields(&self) -> (r: FieldsIter<'_>)
        ensures
            r.form() == self.spec_form(),
            r.pos() == 0,
    {
        self.form.get_fields()
    }

    /// Writes one field.
    pub fn set_field(&mut self, name: &str, val: String)
        requires
            old(self).wf(),
        ensures
            final(self).wf(),
            final(self).spec_form().names() == old(self).spec_form().names(),
            forall|i: int|
                0 <= i < old(self).spec_form().vals().len() ==> final(self).spec_form().vals()[i]
                    == (if old(self).spec_form().names()[i] == name@ {
                    val@
                } else {
                    old(self).spec_form().vals()[i]
                }),
    {
        self.form.set(name, val)
    }
}

impl Default for AreaCalcProblemCreator {
    /// The form with its example problem filled in.
    #[verifier::rlimit(50)]
    fn default() -> (r: AreaCalcProblemCreator)
        ensures
            r.wf(),
            r.spec_form().names() == seq![
                "f1"@,
                "f2"@,
                "f3"@,
                "x12_from"@,
                "x12_to"@,
                "x13_from"@,
                "x13_to"@,
                "x23_from"@,
                "x23_to"@,
                "eps"@,
                "max_iter_count"@,
            ],
            r.spec_form().vals() == seq![
                "exp(x)+2"@,
                "-2x+8"@,
                "-5/x"@,
                "0"@,
                "2"@,
                "-4"@,
                "-1"@,
                "-2"@,
                "-0.3"@,
                "0.001"@,
                "1000"@,
            ],
    {
        let mut names: Vec<String> = Vec::new();
        names.push(String::from_str("f1"));
        names.push(String::from_str("f2"));
        names.push(String::from_str("f3"));
        names.push(String::from_str("x12_from"));
        names.push(String::from_str("x12_to"));
        names.push(String::from_str("x13_from"));
        names.push(String::from_str("x13_to"));
        names.push(String::from_str("x23_from"));
        names.push(String::from_str("x23_to"));
        names.push(String::from_str("eps"));
        names.push(String::from_str("max_iter_count"));
        let mut form = Form::new(names);
        proof {
            reveal_strlit("f1");
            reveal_strlit("f2");
            reveal_strlit("f3");
            reveal_strlit("x12_from");
            reveal_strlit("x12_to");
            reveal_strlit("x13_from");
            reveal_strlit("x13_to");
            reveal_strlit("x23_from");
            reveal_strlit("x23_to");
            reveal_strlit("eps");
            reveal_strlit("max_iter_count");
            assert("f1"@.len() == 2);
            assert("f2"@.len() == 2);
            assert("f3"@.len() == 2);
            assert("x12_from"@.len() == 8);
            assert("x12_to"@.len() == 6);
            assert("x13_from"@.len() == 8);
            assert("x13_to"@.len() == 6);
            assert("x23_from"@.len() == 8);
            assert("x23_to"@.len() == 6);
            assert("eps"@.len() == 3);
            assert("max_iter_count"@.len() == 14);
            assert("f1"@[1] == '1' && "f2"@[1] == '2');
            assert("f1"@[1] == '1' && "f3"@[1] == '3');
            assert("f2"@[1] == '2' && "f3"@[1] == '3');
            assert("x12_from"@[2] == '2' && "x13_from"@[2] == '3');
            assert("x12_from"@[1] == '1' && "x23_from"@[1] == '2');
            assert("x12_to"@[2] == '2' && "x13_to"@[2] == '3');
            assert("x12_to"@[1] == '1' && "x23_to"@[1] == '2');
            assert("x13_from"@[1] == '1' && "x23_from"@[1] == '2');
            assert("x13_to"@[1] == '1' && "x23_to"@[1] == '2');
            assert(form.names() =~= seq![
                "f1"@,
                "f2"@,
                "f3"@,
                "x12_from"@,
                "x12_to"@,
                "x13_from"@,
                "x13_to"@,
                "x23_from"@,
                "x23_to"@,
                "eps"@,
                "max_iter_count"@,
            ]);
            assert("f1"@ != "f2"@);
            assert("f1"@ != "f3"@);
            assert("f1"@ != "x12_from"@);
            assert("f1"@ != "x12_to"@);
            assert("f1"@ != "x13_from"@);
            assert("f1"@ != "x13_to"@);
            assert("f1"@ != "x23_from"@);
            assert("f1"@ != "x23_to"@);
            assert("f1"@ != "eps"@);
            assert("f1"@ != "max_iter_count"@);
            assert("f2"@ != "f3"@);
            assert("f2"@ != "x12_from"@);
            assert("f2"@ != "x12_to"@);
            assert("f2"@ != "x13_from"@);
            assert("f2"@ != "x13_to"@);
            assert("f2"@ != "x23_from"@);
            assert("f2"@ != "x23_to"@);
            assert("f2"@ != "eps"@);
            assert("f2"@ != "max_iter_count"@);
            assert("f3"@ != "x12_from"@);
            assert("f3"@ != "x12_to"@);
            assert("f3"@ != "x13_from"@);
            assert("f3"@ != "x13_to"@);
            assert("f3"@ != "x23_from"@);
            assert("f3"@ != "x23_to"@);
            assert("f3"@ != "eps"@);
            assert("f3"@ != "max_iter_count"@);
            assert("x12_from"@ != "x12_to"@);
            assert("x12_from"@ != "x13_from"@);
            assert("x12_from"@ != "x13_to"@);
            assert("x12_from"@ != "x23_from"@);
            assert("x12_from"@ != "x23_to"@);
            assert("x12_from"@ != "eps"@);
            assert("x12_from"@ != "max_iter_count"@);
            assert("x12_to"@ != "x13_from"@);
            assert("x12_to"@ != "x13_to"@);
            assert("x12_to"@ != "x23_from"@);
            assert("x12_to"@ != "x23_to"@);
            assert("x12_to"@ != "eps"@);
            assert("x12_to"@ != "max_iter_count"@);
            assert("x13_from"@ != "x13_to"@);
            assert("x13_from"@ != "x23_from"@);
            assert("x13_from"@ != "x23_to"@);
            assert("x13_from"@ != "eps"@);
            assert("x13_from"@ != "max_iter_count"@);
            assert("x13_to"@ != "x23_from"@);
            assert("x13_to"@ != "x23_to"@);
            assert("x13_to"@ != "eps"@);
            assert("x13_to"@ != "max_iter_count"@);
            assert("x23_from"@ != "x23_to"@);
            assert("x23_from"@ != "eps"@);
            assert("x23_from"@ != "max_iter_count"@);
            assert("x23_to"@ != "eps"@);
            assert("x23_to"@ != "max_iter_count"@);
            assert("eps"@ != "max_iter_count"@);
        }
        form.set("f1", String::from_str("exp(x)+2"));
        proof {
            assert(form.vals()[0] == "exp(x)+2"@);
        }
        form.set("f2", String::from_str("-2x+8"));
        proof {
            assert(form.vals()[0] == "exp(x)+2"@);
            assert(form.vals()[1] == "-2x+8"@);
        }
        form.set("f3", String::from_str("-5/x"));
        proof {
            assert(form.vals()[0] == "exp(x)+2"@);
            assert(form.vals()[1] == "-2x+8"@);
            assert(form.vals()[2] == "-5/x"@);
        }
        form.set("x12_from", String::from_str("0"));
        proof {
            assert(form.vals()[0] == "exp(x)+2"@);
            assert(form.vals()[1] == "-2x+8"@);
            assert(form.vals()[2] == "-5/x"@);
            assert(form.vals()[3] == "0"@);
        }
        form.set("x12_to", String::from_str("2"));
        proof {
            assert(form.vals()[0] == "exp(x)+2"@);
            assert(form.vals()[1] == "-2x+8"@);
            assert(form.vals()[2] == "-5/x"@);
            assert(form.vals()[3] == "0"@);
            assert(form.vals()[4] == "2"@);
        }
        form.set("x13_from", String::from_str("-4"));
        proof {
            assert(form.vals()[0] == "exp(x)+2"@);
            assert(form.vals()[1] == "-2x+8"@);
            assert(form.vals()[2] == "-5/x"@);
            assert(form.vals()[3] == "0"@);
            assert(form.vals()[4] == "2"@);
            assert(form.vals()[5] == "-4"@);
        }
        form.set("x13_to", String::from_str("-1"));
        proof {
            assert(form.vals()[0] == "exp(x)+2"@);
            assert(form.vals()[1] == "-2x+8"@);
            assert(form.vals()[2] == "-5/x"@);
            assert(form.vals()[3] == "0"@);
            assert(form.vals()[4] == "2"@);
            assert(form.vals()[5] == "-4"@);
            assert(form.vals()[6] == "-1"@);
        }
        form.set("x23_from", String::from_str("-2"));
        proof {
            assert(form.vals()[0] == "exp(x)+2"@);
            assert(form.vals()[1] == "-2x+8"@);
            assert(form.vals()[2] == "-5/x"@);
            assert(form.vals()[3] == "0"@);
            assert(form.vals()[4] == "2"@);
            assert(form.vals()[5] == "-4"@);
            assert(form.vals()[6] == "-1"@);
            assert(form.vals()[7] == "-2"@);
        }
        form.set("x23_to", String::from_str("-0.3"));
        proof {
            assert(form.vals()[0] == "exp(x)+2"@);
            assert(form.vals()[1] == "-2x+8"@);
            assert(form.vals()[2] == "-5/x"@);
            assert(form.vals()[3] == "0"@);
            assert(form.vals()[4] == "2"@);
            assert(form.vals()[5] == "-4"@);
            assert(form.vals()[6] == "-1"@);
            assert(form.vals()[7] == "-2"@);
            assert(form.vals()[8] == "-0.3"@);
        }
        form.set("eps", String::from_str("0.001"));
        proof {
            assert(form.vals()[0] == "exp(x)+2"@);
            assert(form.vals()[1] == "-2x+8"@);
            assert(form.vals()[2] == "-5/x"@);
            assert(form.vals()[3] == "0"@);
            assert(form.vals()[4] == "2"@);
            assert(form.vals()[5] == "-4"@);
            assert(form.vals()[6] == "-1"@);
            assert(form.vals()[7] == "-2"@);
            assert(form.vals()[8] == "-0.3"@);
            assert(form.vals()[9] == "0.001"@);
        }
        form.set("max_iter_count", String::from_str("1000"));
        proof {
            assert(form.vals()[0] == "exp(x)+2"@);
            assert(form.vals()[1] == "-2x+8"@);
            assert(form.vals()[2] == "-5/x"@);
            assert(form.vals()[3] == "0"@);
            assert(form.vals()[4] == "2"@);
            assert(form.vals()[5] == "-4"@);
            assert(form.vals()[6] == "-1"@);
            assert(form.vals()[7] == "-2"@);
            assert(form.vals()[8] == "-0.3"@);
            assert(form.vals()[9] == "0.001"@);
            assert(form.vals()[10] == "1000"@);
        }
        proof {
            assert(form.vals() =~= seq![
                "exp(x)+2"@,
                "-2x+8"@,
                "-5/x"@,
                "0"@,
                "2"@,
                "-4"@,
                "-1"@,
                "-2"@,
                "-0.3"@,
                "0.001"@,
                "1000"@,
            ]);
        }
        AreaCalcProblemCreator { form }
    }
}

} // verus!
