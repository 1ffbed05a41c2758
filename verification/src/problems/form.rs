//! A user-facing input form: an ordered list of named text fields.
//!
//! Names keep their insertion order; a value is read and written by name.
//! Writing a name the form does not have changes nothing; positions that
//! share a name always share their value.

use vstd::prelude::*;

use crate::mathparse::chars::str_eq;
use crate::mathparse::runtime::strs_view;
use vstd::string::StringExecFns;

verus! {

/// The position of the first entry of `names` that reads `n`, or -1.
pub open spec fn index_of_name(names: Seq<Seq<char>>, n: Seq<char>, j: int) -> int
    decreases names.len() - j,
{
    if j < 0 || j >= names.len() {
        -1
    } else if names[j] == n {
        j
    } else {
        index_of_name(names, n, j + 1)
    }
}

/// An input form.
pub struct Form {
    field_names: Vec<String>,
    values: Vec<String>,
}

impl Form {
    /// The field names, in order.
    pub closed spec fn names(&self) -> Seq<Seq<char>> {
        strs_view(self.field_names@)
    }

    /// The field values, in the same order.
    pub closed spec fn vals(&self) -> Seq<Seq<char>> {
        strs_view(self.values@)
    }

    /// One value per name.
    pub open spec fn wf(&self) -> bool {
        self.names().len() == self.vals().len()
    }

    /// A form with the given fields, each holding the empty text.
    pub fn new(field_names: Vec<String>) -> (r: Form)
        ensures
            r.wf(),
            r.names() == strs_view(field_names@),
            forall|i: int| 0 <= i < r.vals().len() ==> r.vals()[i] == Seq::<char>::empty(),
    {
        let n = field_names.len();
        let mut values: Vec<String> = Vec::new();
        let mut i: usize = 0;
        while i < n
            invariant
                i <= n,
                values@.len() == i,
                forall|j: int| 0 <= j < i ==> values@[j]@ == Seq::<char>::empty(),
            decreases n - i,
        {
            values.push(String::new());
            i = i + 1;
        }
        Form { field_names, values }
    }

    /// Writes `val` into every field of that name; a name the form does
    /// not have changes nothing.
    pub fn set(&mut self, name: &str, val: String)
        requires
            old(self).wf(),
        ensures
            final(self).wf(),
            final(self).names() == old(self).names(),
            final(self).vals().len() == old(self).vals().len(),
            forall|i: int|
                0 <= i < old(self).vals().len() ==> #[trigger] final(self).vals()[i] == (if old(
                    self,
                ).names()[i] == name@ {
                    val@
                } else {
                    old(self).vals()[i]
                }),
    {
        let n = self.field_names.len();
        let mut i: usize = 0;
        while i < n
            invariant
                i <= n,
                self.wf(),
                n == self.names().len(),
                self.names() == old(self).names(),
                self.vals().len() == old(self).vals().len(),
                forall|j: int|
                    0 <= j < i ==> self.vals()[j] == (if old(self).names()[j] == name@ {
                        val@
                    } else {
                        old(self).vals()[j]
                    }),
                forall|j: int| i <= j < n ==> self.vals()[j] == old(self).vals()[j],
            decreases n - i,
        {
            if str_eq(self.field_names[i].as_str(), name) {
                self.values.set(i, val.clone());
            }
            i = i + 1;
        }
    }

    /// The value of the first field of that name.
    pub fn get(&self, name: &str) -> (r: Option<&String>)
        requires
            self.wf(),
        ensures
            match r {
                Some(s) => {
                    let ix = index_of_name(self.names(), name@, 0);
                    0 <= ix < self.vals().len() && s@ == self.vals()[ix]
                },
                None => index_of_name(self.names(), name@, 0) == -1,
            },
    {
        let n = self.field_names.len();
        let mut i: usize = 0;
        while i < n
            invariant
                i <= n,
                self.wf(),
                n == self.names().len(),
                index_of_name(self.names(), name@, 0) == index_of_name(
                    self.names(),
                    name@,
                    i as int,
                ),
            decreases n - i,
        {
            if str_eq(self.field_names[i].as_str(), name) {
                proof {
                    assert(self.names()[i as int] == name@);
                }
                return Some(&self.values[i]);
            }
            proof {
                assert(self.names()[i as int] != name@);
            }
            i = i + 1;
        }
        None
    }

    /// An iterator over the fields, in order.
    pub fn get_fields(&self) -> (r: FieldsIter<'_>)
        ensures
            r.form() == *self,
            r.pos() == 0,
    {
        FieldsIter { form: self, pos: 0 }
    }

    /// Adds a field holding the empty text; a name the form already has
    /// changes nothing.
    pub fn add_field(&mut self, name: String)
        requires
            old(self).wf(),
        ensures
            final(self).wf(),
            index_of_name(old(self).names(), name@, 0) >= 0 ==> *final(self) == *old(self),
            index_of_name(old(self).names(), name@, 0) == -1 ==> {
                &&& final(self).names() == old(self).names().push(name@)
                &&& final(self).vals() == old(self).vals().push(Seq::<char>::empty())
            },
    {
        let n = self.field_names.len();
        let mut i: usize = 0;
        while i < n
            invariant
                i <= n,
                self.wf(),
                n == self.names().len(),
                self == old(self),
                index_of_name(self.names(), name@, 0) == index_of_name(
                    self.names(),
                    name@,
                    i as int,
                ),
            decreases n - i,
        {
            if str_eq(self.field_names[i].as_str(), name.as_str()) {
                proof {
                    assert(self.names()[i as int] == name@);
                }
                return ;
            }
            proof {
                assert(self.names()[i as int] != name@);
            }
            i = i + 1;
        }
        self.field_names.push(name);
        self.values.push(String::new());
        proof {
            assert(final(self).names() =~= old(self).names().push(
                final(self).names()[final(self).names().len() - 1],
            ));
            assert(final(self).vals() =~= old(self).vals().push(Seq::<char>::empty()));
        }
    }
}

/// A name search lands on a matching position or reports none.
pub proof fn lemma_index_of_name_bounds(names: Seq<Seq<char>>, n: Seq<char>, j: int)
    requires
        j >= 0,
    ensures
        index_of_name(names, n, j) == -1 || (j <= index_of_name(names, n, j) < names.len()
            && names[index_of_name(names, n, j)] == n),
    decreases names.len() - j,
{
    if 0 <= j < names.len() && names[j] != n {
        lemma_index_of_name_bounds(names, n, j + 1);
    }
}

/// Walks the fields of a form front to back.
pub struct FieldsIter<'a> {
    form: &'a Form,
    pos: usize,
}

impl<'a> FieldsIter<'a> {
    pub closed spec fn form(&self) -> Form {
        *self.form
    }

    pub closed spec fn pos(&self) -> int {
        self.pos as int
    }

    /// The next field and its value, or `None` past the end.
    pub fn next(&mut self) -> (r: Option<(&'a str, &'a str)>)
        requires
            old(self).form().wf(),
        ensures
            final(self).form() == old(self).form(),
            old(self).pos() < old(self).form().names().len() ==> {
                &&& r matches Some(p)
                &&& p.0@ == old(self).form().names()[old(self).pos()]
                &&& p.1@ == old(self).form().vals()[old(self).pos()]
                &&& final(self).pos() == old(self).pos() + 1
            },
            old(self).pos() >= old(self).form().names().len() ==> r is None && final(self).pos()
                == old(self).pos(),
    {
        if self.pos < self.form.field_names.len() {
            let name = &self.form.field_names[self.pos];
            let val = &self.form.values[self.pos];
            self.pos = self.pos + 1;
            Some((name.as_str(), val.as_str()))
        } else {
            None
        }
    }
}

} // verus!
