//! The input form of the gradient-descent minimiser.
//!
//! This form is the one that reshapes itself: when the objective formula
//! changes, the form re-derives the coordinate axes from its free
//! variables and offers one starting-point field and one derivative field
//! per axis.

use vstd::prelude::*;
use vstd::string::StringExecFns;

use super::form::{FieldsIter, Form};
use crate::mathparse::chars::str_eq;
use crate::mathparse::expr::{expr_view, spec_vars, strs_contain, strs_distinct};
use crate::mathparse::parse::spec_parse;
use crate::mathparse::runtime::{builtin_pred, lang_pred, DefaultLanguage};

verus! {

/// Holds the editable fields of the gradients minimum problem: the
/// objective, the tolerance, the iteration cap, and per coordinate axis a
/// starting value and a partial derivative formula.
pub struct GradientsMinProblemCreator {
    form: Form,
    ordered_vars: Vec<String>,
}

impl GradientsMinProblemCreator {
    pub closed spec fn spec_form(&self) -> Form {
        self.form
    }

    pub closed spec fn spec_ordered(&self) -> Seq<String> {
        self.ordered_vars@
    }

    pub open spec fn wf(&self) -> bool {
        self.spec_form().wf()
    }

    /// The filled-in form, for the caller that builds the problem.
    pub fn form(&self) -> (r: &Form)
        ensures
            *r == self.spec_form(),
    {
        &self.form
    }

    /// The coordinate axes, in the order their fields appear.
    pub fn ordered_vars(&self) -> (r: &Vec<String>)
        ensures
            r@ == self.spec_ordered(),
    {
        &self.ordered_vars
    }

    /// The fields, in display order.
    pub fn fields(&self) -> (r: FieldsIter<'_>)
        ensures
            r.form() == self.spec_form(),
            r.pos() == 0,
    {
        self.form.get_fields()
    }

    /// Writes one field.  Writing a parseable objective into `f` first
    /// rebuilds the form: the base fields keep their values and each free
    /// variable of the new objective gets a starting-point field and a
    /// derivative field.
    pub fn set_field(&mut self, name: &str, val: String)
        requires
            old(self).wf(),
        ensures
            final(self).wf(),
            name@ != "f"@ || spec_parse(val@, builtin_pred()) is None ==> {
                &&& final(self).spec_form().names() == old(self).spec_form().names()
                &&& final(self).spec_ordered() == old(self).spec_ordered()
                &&& forall|i: int|
                    0 <= i < old(self).spec_form().vals().len()
                        ==> final(self).spec_form().vals()[i] == (if old(
                        self,
                    ).spec_form().names()[i] == name@ {
                        val@
                    } else {
                        old(self).spec_form().vals()[i]
                    })
            },
            name@ == "f"@ && spec_parse(val@, builtin_pred()) is Some ==> {
                &&& strs_distinct(final(self).spec_ordered())
                &&& forall|n: Seq<char>|
                    strs_contain(final(self).spec_ordered(), n) <==> spec_vars(
                        spec_parse(val@, builtin_pred())->0,
                    ).contains(n)
                &&& final(self).spec_form().names().len() >= 3
                &&& final(self).spec_form().names().subrange(0, 3) == seq![
                    "f"@,
                    "eps"@,
                    "max_iter_count"@,
                ]
                &&& forall|i: int|
                    0 <= i < final(self).spec_form().names().len() && final(self).spec_form().names()[i]
                        == "f"@ ==> final(self).spec_form().vals()[i] == val@
            },
    {
        if str_eq(name, "f") {
            let lang = DefaultLanguage::default();
            proof {
                assert forall|n: Seq<char>| #[trigger] lang_pred(&lang)(n) == builtin_pred()(
                    n,
                ) by {
                }
                assert(lang_pred(&lang) =~= builtin_pred());
            }
            match crate::mathparse::parse(val.as_str(), &lang) {
                Some(parsed) => {
                    let new_vars = parsed.query_vars();
                    let mut new_names: Vec<String> = Vec::new();
                    new_names.push(String::from_str("f"));
                    new_names.push(String::from_str("eps"));
                    new_names.push(String::from_str("max_iter_count"));
                    let mut new_form = Form::new(new_names);
                    proof {
                        assert(new_form.names() =~= seq!["f"@, "eps"@, "max_iter_count"@]);
                    }
                    match self.form.get("f") {
                        Some(v) => {
                            let vv = v.clone();
                            new_form.set("f", vv);
                        },
                        None => {},
                    }
                    match self.form.get("eps") {
                        Some(v) => {
                            let vv = v.clone();
                            new_form.set("eps", vv);
                        },
                        None => {},
                    }
                    match self.form.get("max_iter_count") {
                        Some(v) => {
                            let vv = v.clone();
                            new_form.set("max_iter_count", vv);
                        },
                        None => {},
                    }
                    let mut i: usize = 0;
                    while i < new_vars.len()
                        invariant
                            new_form.wf(),
                            new_form.names().len() >= 3,
                            new_form.names().subrange(0, 3) == seq![
                                "f"@,
                                "eps"@,
                                "max_iter_count"@,
                            ],
                        decreases new_vars@.len() - i,
                    {
                        let mut s = new_vars[i].clone();
                        s.append("0");
                        let ghost sv = s@;
                        let ghost before = new_form.names();
                        new_form.add_field(s);
                        proof {
                            super::form::lemma_index_of_name_bounds(before, sv, 0);
                            if new_form.names() != before {
                                assert(new_form.names().subrange(0, 3) =~= before.subrange(
                                    0,
                                    3,
                                ));
                            }
                        }
                        i = i + 1;
                    }
                    let mut i2: usize = 0;
                    while i2 < new_vars.len()
                        invariant
                            new_form.wf(),
                            new_form.names().len() >= 3,
                            new_form.names().subrange(0, 3) == seq![
                                "f"@,
                                "eps"@,
                                "max_iter_count"@,
                            ],
                        decreases new_vars@.len() - i2,
                    {
                        let mut s = String::from_str("df/d");
                        s.append(new_vars[i2].as_str());
                        let ghost sv = s@;
                        let ghost before = new_form.names();
                        new_form.add_field(s);
                        proof {
                            super::form::lemma_index_of_name_bounds(before, sv, 0);
                            if new_form.names() != before {
                                assert(new_form.names().subrange(0, 3) =~= before.subrange(
                                    0,
                                    3,
                                ));
                            }
                        }
                        i2 = i2 + 1;
                    }
                    self.form = new_form;
                    self.ordered_vars = new_vars;
                },
                None => {},
            }
        }
        self.form.set(name, val);
    }
}

impl Default for GradientsMinProblemCreator {
    /// The form with its example problem filled in, over the axes `x`
    /// and `y`.
    #[verifier::rlimit(50)]
    fn default() -> (r: GradientsMinProblemCreator)
        ensures
            r.wf(),
            r.spec_form().names() == seq![
                "f"@,
                "eps"@,
                "max_iter_count"@,
                "df/dx"@,
                "df/dy"@,
                "x0"@,
                "y0"@,
            ],
            r.spec_form().vals() == seq![
                "10pow(y-x*x,2)+pow(1-x,2)"@,
                "0.00001"@,
                "10000"@,
                "-40x*y+40pow(x,3)+2x-2"@,
                "20y-20*x*x"@,
                "3"@,
                "3"@,
            ],
            r.spec_ordered().len() == 2 && r.spec_ordered()[0]@ == "x"@ && r.spec_ordered()[1]@
                == "y"@,
    {
        let mut names: Vec<String> = Vec::new();
        names.push(String::from_str("f"));
        names.push(String::from_str("eps"));
        names.push(String::from_str("max_iter_count"));
        names.push(String::from_str("df/dx"));
        names.push(String::from_str("df/dy"));
        names.push(String::from_str("x0"));
        names.push(String::from_str("y0"));
        let mut form = Form::new(names);
        proof {
            reveal_strlit("f");
            reveal_strlit("eps");
            reveal_strlit("max_iter_count");
            reveal_strlit("df/dx");
            reveal_strlit("df/dy");
            reveal_strlit("x0");
            reveal_strlit("y0");
            assert("f"@.len() == 1);
            assert("eps"@.len() == 3);
            assert("max_iter_count"@.len() == 14);
            assert("df/dx"@.len() == 5);
            assert("df/dy"@.len() == 5);
            assert("x0"@.len() == 2);
            assert("y0"@.len() == 2);
            assert("df/dx"@[4] == 'x' && "df/dy"@[4] == 'y');
            assert("x0"@[0] == 'x' && "y0"@[0] == 'y');
            assert(form.names() =~= seq![
                "f"@,
                "eps"@,
                "max_iter_count"@,
                "df/dx"@,
                "df/dy"@,
                "x0"@,
                "y0"@,
            ]);
            assert("f"@ != "eps"@);
            assert("f"@ != "max_iter_count"@);
            assert("f"@ != "df/dx"@);
            assert("f"@ != "df/dy"@);
            assert("f"@ != "x0"@);
            assert("f"@ != "y0"@);
            assert("eps"@ != "max_iter_count"@);
            assert("eps"@ != "df/dx"@);
            assert("eps"@ != "df/dy"@);
            assert("eps"@ != "x0"@);
            assert("eps"@ != "y0"@);
            assert("max_iter_count"@ != "df/dx"@);
            assert("max_iter_count"@ != "df/dy"@);
            assert("max_iter_count"@ != "x0"@);
            assert("max_iter_count"@ != "y0"@);
            assert("df/dx"@ != "df/dy"@);
            assert("df/dx"@ != "x0"@);
            assert("df/dx"@ != "y0"@);
            assert("df/dy"@ != "x0"@);
            assert("df/dy"@ != "y0"@);
            assert("x0"@ != "y0"@);
        }
        form.set("f", String::from_str("10pow(y-x*x,2)+pow(1-x,2)"));
        proof {
            assert(form.vals()[0] == "10pow(y-x*x,2)+pow(1-x,2)"@);
        }
        form.set("eps", String::from_str("0.00001"));
        proof {
            assert(form.vals()[0] == "10pow(y-x*x,2)+pow(1-x,2)"@);
            assert(form.vals()[1] == "0.00001"@);
        }
        form.set("max_iter_count", String::from_str("10000"));
        proof {
            assert(form.vals()[0] == "10pow(y-x*x,2)+pow(1-x,2)"@);
            assert(form.vals()[1] == "0.00001"@);
            assert(form.vals()[2] == "10000"@);
        }
        form.set("df/dx", String::from_str("-40x*y+40pow(x,3)+2x-2"));
        proof {
            assert(form.vals()[0] == "10pow(y-x*x,2)+pow(1-x,2)"@);
            assert(form.vals()[1] == "0.00001"@);
            assert(form.vals()[2] == "10000"@);
            assert(form.vals()[3] == "-40x*y+40pow(x,3)+2x-2"@);
        }
        form.set("df/dy", String::from_str("20y-20*x*x"));
        proof {
            assert(form.vals()[0] == "10pow(y-x*x,2)+pow(1-x,2)"@);
            assert(form.vals()[1] == "0.00001"@);
            assert(form.vals()[2] == "10000"@);
            assert(form.vals()[3] == "-40x*y+40pow(x,3)+2x-2"@);
            assert(form.vals()[4] == "20y-20*x*x"@);
        }
        form.set("x0", String::from_str("3"));
        proof {
            assert(form.vals()[0] == "10pow(y-x*x,2)+pow(1-x,2)"@);
            assert(form.vals()[1] == "0.00001"@);
            assert(form.vals()[2] == "10000"@);
            assert(form.vals()[3] == "-40x*y+40pow(x,3)+2x-2"@);
            assert(form.vals()[4] == "20y-20*x*x"@);
            assert(form.vals()[5] == "3"@);
        }
        form.set("y0", String::from_str("3"));
        proof {
            assert(form.vals()[0] == "10pow(y-x*x,2)+pow(1-x,2)"@);
            assert(form.vals()[1] == "0.00001"@);
            assert(form.vals()[2] == "10000"@);
            assert(form.vals()[3] == "-40x*y+40pow(x,3)+2x-2"@);
            assert(form.vals()[4] == "20y-20*x*x"@);
            assert(form.vals()[5] == "3"@);
            assert(form.vals()[6] == "3"@);
        }
        proof {
            assert(form.vals() =~= seq![
                "10pow(y-x*x,2)+pow(1-x,2)"@,
                "0.00001"@,
                "10000"@,
                "-40x*y+40pow(x,3)+2x-2"@,
                "20y-20*x*x"@,
                "3"@,
                "3"@,
            ]);
        }
        let mut ordered_vars: Vec<String> = Vec::new();
        ordered_vars.push(String::from_str("x"));
        ordered_vars.push(String::from_str("y"));
        GradientsMinProblemCreator { form, ordered_vars }
    }
}

} // verus!
