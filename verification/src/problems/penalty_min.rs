//! The input form of the penalty-constrained minimiser.

use vstd::prelude::*;
use vstd::string::StringExecFns;

use super::form::{FieldsIter, Form};

verus! {

/// Holds the editable fields of the constrained minimum problem: the
/// objective, the bracket, the starting tolerance, the step floor, the
/// iteration cap and two constraint formulas.
pub struct PenaltyMinProblemCreator {
    form: Form,
}

impl PenaltyMinProblemCreator {
    pub closed spec fn spec_form(&self) -> Form {
        self.form
    }

    pub open spec fn wf(&self) -> bool {
        self.spec_form().wf()
    }

    /// The filled-in form, for the caller that builds the problem.
    pub fn form(&self) -> (r: &Form)
        ensures
            *r == self.spec_form(),
    {
        &self.form
    }

    /// The fields, in display order.
    pub fn fields(&self) -> (r: FieldsIter<'_>)
        ensures
            r.form() == self.spec_form(),
            r.pos() == 0,
    {
        self.form.get_fields()
    }

    /// Writes one field.
    pub fn set_field(&mut self, name: &str, val: String)
        requires
            old(self).wf(),
        ensures
            final(self).wf(),
            final(self).spec_form().names() == old(self).spec_form().names(),
            forall|i: int|
                0 <= i < old(self).spec_form().vals().len() ==> final(self).spec_form().vals()[i]
                    == (if old(self).spec_form().names()[i] == name@ {
                    val@
                } else {
                    old(self).spec_form().vals()[i]
                }),
    {
        self.form.set(name, val)
    }
}

impl Default for PenaltyMinProblemCreator {
    /// The form with its example problem filled in.
    #[verifier::rlimit(50)]
    fn default() -> (r: PenaltyMinProblemCreator)
        ensures
            r.wf(),
            r.spec_form().names() == seq![
                "f"@,
                "from"@,
                "to"@,
                "start_eps"@,
                "min_step"@,
                "max_iter_count"@,
                "constraint1"@,
                "constraint2"@,
            ],
            r.spec_form().vals() == seq![
                "-0.8pow(x,4)-1.2pow(x,3)+pow(x,2)+x"@,
                "-2"@,
                "1"@,
                "0.001"@,
                "0.001"@,
                "1000"@,
                "-x-1"@,
                ""@,
            ],
    {
        let mut names: Vec<String> = Vec::new();
        names.push(String::from_str("f"));
        names.push(String::from_str("from"));
        names.push(String::from_str("to"));
        names.push(String::from_str("start_eps"));
        names.push(String::from_str("min_step"));
        names.push(String::from_str("max_iter_count"));
        names.push(String::from_str("constraint1"));
        names.push(String::from_str("constraint2"));
        let mut form = Form::new(names);
        proof {
            reveal_strlit("f");
            reveal_strlit("from");
            reveal_strlit("to");
            reveal_strlit("start_eps");
            reveal_strlit("min_step");
            reveal_strlit("max_iter_count");
            reveal_strlit("constraint1");
            reveal_strlit("constraint2");
            assert("f"@.len() == 1);
            assert("from"@.len() == 4);
            assert("to"@.len() == 2);
            assert("start_eps"@.len() == 9);
            assert("min_step"@.len() == 8);
            assert("max_iter_count"@.len() == 14);
            assert("constraint1"@.len() == 11);
            assert("constraint2"@.len() == 11);
            assert("constraint1"@[10] == '1' && "constraint2"@[10] == '2');
            assert(form.names() =~= seq![
                "f"@,
                "from"@,
                "to"@,
                "start_eps"@,
                "min_step"@,
                "max_iter_count"@,
                "constraint1"@,
                "constraint2"@,
            ]);
            assert("f"@ != "from"@);
            assert("f"@ != "to"@);
            assert("f"@ != "start_eps"@);
            assert("f"@ != "min_step"@);
            assert("f"@ != "max_iter_count"@);
            assert("f"@ != "constraint1"@);
            assert("f"@ != "constraint2"@);
            assert("from"@ != "to"@);
            assert("from"@ != "start_eps"@);
            assert("from"@ != "min_step"@);
            assert("from"@ != "max_iter_count"@);
            assert("from"@ != "constraint1"@);
            assert("from"@ != "constraint2"@);
            assert("to"@ != "start_eps"@);
            assert("to"@ != "min_step"@);
            assert("to"@ != "max_iter_count"@);
            assert("to"@ != "constraint1"@);
            assert("to"@ != "constraint2"@);
            assert("start_eps"@ != "min_step"@);
            assert("start_eps"@ != "max_iter_count"@);
            assert("start_eps"@ != "constraint1"@);
            assert("start_eps"@ != "constraint2"@);
            assert("min_step"@ != "max_iter_count"@);
            assert("min_step"@ != "constraint1"@);
            assert("min_step"@ != "constraint2"@);
            assert("max_iter_count"@ != "constraint1"@);
            assert("max_iter_count"@ != "constraint2"@);
            assert("constraint1"@ != "constraint2"@);
            reveal_strlit("");
            assert(""@ =~= Seq::<char>::empty());
        }
        form.set("f", String::from_str("-0.8pow(x,4)-1.2pow(x,3)+pow(x,2)+x"));
        proof {
            assert(form.vals()[7] == ""@);
            assert(form.vals()[0] == "-0.8pow(x,4)-1.2pow(x,3)+pow(x,2)+x"@);
        }
        form.set("from", String::from_str("-2"));
        proof {
            assert(form.vals()[7] == ""@);
            assert(form.vals()[0] == "-0.8pow(x,4)-1.2pow(x,3)+pow(x,2)+x"@);
            assert(form.vals()[1] == "-2"@);
        }
        form.set("to", String::from_str("1"));
        proof {
            assert(form.vals()[7] == ""@);
            assert(form.vals()[0] == "-0.8pow(x,4)-1.2pow(x,3)+pow(x,2)+x"@);
            assert(form.vals()[1] == "-2"@);
            assert(form.vals()[2] == "1"@);
        }
        form.set("start_eps", String::from_str("0.001"));
        proof {
            assert(form.vals()[7] == ""@);
            assert(form.vals()[0] == "-0.8pow(x,4)-1.2pow(x,3)+pow(x,2)+x"@);
            assert(form.vals()[1] == "-2"@);
            assert(form.vals()[2] == "1"@);
            assert(form.vals()[3] == "0.001"@);
        }
        form.set("min_step", String::from_str("0.001"));
        proof {
            assert(form.vals()[7] == ""@);
            assert(form.vals()[0] == "-0.8pow(x,4)-1.2pow(x,3)+pow(x,2)+x"@);
            assert(form.vals()[1] == "-2"@);
            assert(form.vals()[2] == "1"@);
            assert(form.vals()[3] == "0.001"@);
            assert(form.vals()[4] == "0.001"@);
        }
        form.set("max_iter_count", String::from_str("1000"));
        proof {
            assert(form.vals()[7] == ""@);
            assert(form.vals()[0] == "-0.8pow(x,4)-1.2pow(x,3)+pow(x,2)+x"@);
            assert(form.vals()[1] == "-2"@);
            assert(form.vals()[2] == "1"@);
            assert(form.vals()[3] == "0.001"@);
            assert(form.vals()[4] == "0.001"@);
            assert(form.vals()[5] == "1000"@);
        }
        form.set("constraint1", String::from_str("-x-1"));
        proof {
            assert(form.vals()[7] == ""@);
            assert(form.vals()[0] == "-0.8pow(x,4)-1.2pow(x,3)+pow(x,2)+x"@);
            assert(form.vals()[1] == "-2"@);
            assert(form.vals()[2] == "1"@);
            assert(form.vals()[3] == "0.001"@);
            assert(form.vals()[4] == "0.001"@);
            assert(form.vals()[5] == "1000"@);
            assert(form.vals()[6] == "-x-1"@);
        }
        proof {
            assert(form.vals() =~= seq![
                "-0.8pow(x,4)-1.2pow(x,3)+pow(x,2)+x"@,
                "-2"@,
                "1"@,
                "0.001"@,
                "0.001"@,
                "1000"@,
                "-x-1"@,
                ""@,
            ]);
        }
        PenaltyMinProblemCreator { form }
    }
}

} // verus!
