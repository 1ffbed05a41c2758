//! The input form of the natural cubic spline problem.

use vstd::prelude::*;
use vstd::string::StringExecFns;

use super::form::{FieldsIter, Form};

verus! {

/// Holds the editable fields of the spline problem: where the sample
/// points are read from and where the coefficients are written.
pub struct SplineProblemCreator {
    form: Form,
}

impl SplineProblemCreator {
    pub closed spec fn spec_form(&self) -> Form {
        self.form
    }

    pub open spec fn wf(&self) -> bool {
        self.spec_form().wf()
    }

    /// The filled-in form, for the caller that builds the problem.
    pub fn form(&self) -> (r: &Form)
        ensures
            *r == self.spec_form(),
    {
        &self.form
    }

    /// The fields, in display order.
    pub fn fields(&self) -> (r: FieldsIter<'_>)
        ensures
            r.form() == self.spec_form(),
            r.pos() == 0,
    {
        self.form.get_fields()
    }

    /// Writes one field.
    pub fn set_field(&mut self, name: &str, val: String)
        requires
            old(self).wf(),
        ensures
            final(self).wf(),
            final(self).spec_form().names() == old(self).spec_form().names(),
            forall|i: int|
                0 <= i < old(self).spec_form().vals().len() ==> final(self).spec_form().vals()[i]
                    == (if old(self).spec_form().names()[i] == name@ {
                    val@
                } else {
                    old(self).spec_form().vals()[i]
                }),
    {
        self.form.set(name, val)
    }
}

impl Default for SplineProblemCreator {
    /// The form with its example problem filled in.
    #[verifier::rlimit(50)]
    fn default() -> (r: SplineProblemCreator)
        ensures
            r.wf(),
            r.spec_form().names() == seq![
                "src_file"@,
                "dest_file"@,
            ],
            r.spec_form().vals() == seq![
                "pts.csv"@,
                "spline.csv"@,
            ],
    {
        let mut names: Vec<String> = Vec::new();
        names.push(String::from_str("src_file"));
        names.push(String::from_str("dest_file"));
        let mut form = Form::new(names);
        proof {
            reveal_strlit("src_file");
            reveal_strlit("dest_file");
            assert("src_file"@.len() == 8);
            assert("dest_file"@.len() == 9);
            assert(form.names() =~= seq![
                "src_file"@,
                "dest_file"@,
            ]);
            assert("src_file"@ != "dest_file"@);
        }
        form.set("src_file", String::from_str("pts.csv"));
        proof {
            assert(form.vals()[0] == "pts.csv"@);
        }
        form.set("dest_file", String::from_str("spline.csv"));
        proof {
            assert(form.vals()[0] == "pts.csv"@);
            assert(form.vals()[1] == "spline.csv"@);
        }
        proof {
            assert(form.vals() =~= seq![
                "pts.csv"@,
                "spline.csv"@,
            ]);
        }
        SplineProblemCreator { form }
    }
}

} // verus!
