//! Companies and their chief executives.

use vstd::prelude::*;
use vstd::string::StringExecFns;

verus! {

/// A company: its name and, where it has one, its chief executive.
#[derive(Debug)]
pub struct Company {
    name: String,
    ceo: Option<String>,
}

/// A [`Company`] as plain values.
pub struct CompanyView {
    pub name: Seq<char>,
    pub ceo: Option<Seq<char>>,
}

impl View for Company {
    type V = CompanyView;

    closed spec fn view(&self) -> CompanyView {
        CompanyView {
            name: self.name@,
            ceo: match self.ceo {
                Some(ceo) => Some(ceo@),
                None => None,
            },
        }
    }
}

/// The chief executives of `companies`, in the companies' order; a company
/// without one adds none.
pub open spec fn ceos_of(companies: Seq<Company>) -> Seq<Seq<char>>
    decreases companies.len(),
{
    if companies.len() == 0 {
        Seq::empty()
    } else {
        let before = ceos_of(companies.drop_last());
        match companies.last()@.ceo {
            Some(ceo) => before.push(ceo),
            None => before,
        }
    }
}

impl Company {
    /// The company called `name`, led by `ceo`; an empty `ceo` means it has
    /// no chief executive.
    pub fn new(name: &str, ceo: &str) -> (company: Self)
        ensures
            company@.name == name@,
            company@.ceo == if ceo@.len() == 0 {
                None
            } else {
                Some(ceo@)
            },
    {
        let ceo = if ceo.is_empty() {
            None
        } else {
            Some(String::from_str(ceo))
        };
        Self { name: String::from_str(name), ceo }
    }

    /// The company's name.
    pub fn name(&self) -> (name: &str)
        ensures
            name@ == self@.name,
    {
        self.name.as_str()
    }

    /// The company's chief executive, where it has one.
    pub fn get_ceo(&self) -> (ceo: Option<String>)
        ensures
            ceo is Some <==> self@.ceo is Some,
            ceo matches Some(name) ==> self@.ceo == Some(name@),
    {
        self.ceo.clone()
    }
}

/// The chief executives of `companies`, in the companies' order, leaving out
/// the companies that have none.
pub fn all_ceos(companies: &Vec<Company>) -> (ceos: Vec<String>)
    ensures
        ceos@.len() == ceos_of(companies@).len(),
        forall|i: int| 0 <= i < ceos@.len() ==> (#[trigger] ceos@[i])@ == ceos_of(companies@)[i],
{
    let mut ceos: Vec<String> = Vec::new();
    let mut done: usize = 0;
    while done < companies.len()
        invariant
            done <= companies@.len(),
            ceos@.len() == ceos_of(companies@.subrange(0, done as int)).len(),
            forall|i: int|
                0 <= i < ceos@.len() ==> (#[trigger] ceos@[i])@ == ceos_of(
                    companies@.subrange(0, done as int),
                )[i],
        decreases companies@.len() - done,
    {
        let ghost before = companies@.subrange(0, done as int);
        let ghost now = companies@.subrange(0, done + 1);
        assert(now.drop_last() == before);
        assert(now.last() == companies@[done as int]);
        match companies[done].get_ceo() {
            Some(ceo) => {
                ceos.push(ceo);
            },
            None => {},
        }
        done = done + 1;
    }
    assert(companies@.subrange(0, done as int) == companies@);
    ceos
}

} // verus!
