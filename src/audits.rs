//! The categories of check, and the set of those that a run performs.
use vstd::prelude::*;
use crate::text::{lower_of, lowercase, same_text};

verus! {

/// A category of check that can be switched on or off. `All` is no category
/// of its own: it stands for every one of them when enabling or disabling.
#[derive(Clone, Copy, Debug, PartialEq, Eq, Hash, Structural)]
pub enum Audit {
    Acl,
    All,
    Cloudfront,
    Logging,
    MfaDelete,
    Policy,
    PublicAccessBlocks,
    ServerSideEncryption,
    Versioning,
    Website,
}

/// The audit that a lower-case name denotes, aliases included.
pub open spec fn audit_named(name: Seq<char>) -> Option<Audit> {
    if name == "acl"@ {
        Some(Audit::Acl)
    } else if name == "all"@ {
        Some(Audit::All)
    } else if name == "cloudfront"@ {
        Some(Audit::Cloudfront)
    } else if name == "logging"@ {
        Some(Audit::Logging)
    } else if name == "policy"@ {
        Some(Audit::Policy)
    } else if name == "public-access-blocks"@ {
        Some(Audit::PublicAccessBlocks)
    } else if name == "versioning"@ {
        Some(Audit::Versioning)
    } else if name == "website"@ {
        Some(Audit::Website)
    } else if name == "encryption"@ || name == "server-side-encryption"@ || name == "sse"@ {
        Some(Audit::ServerSideEncryption)
    } else if name == "mfa"@ || name == "mfa-delete"@ {
        Some(Audit::MfaDelete)
    } else {
        None
    }
}

impl Audit {
    /// The audit named by `name`, which is taken as already in lower case.
    pub fn from_lowercase(name: &str) -> (r: Option<Audit>)
        ensures
            r == audit_named(name@),
    {
        if same_text(name, "acl") {
            Some(Audit::Acl)
        } else if same_text(name, "all") {
            Some(Audit::All)
        } else if same_text(name, "cloudfront") {
            Some(Audit::Cloudfront)
        } else if same_text(name, "logging") {
            Some(Audit::Logging)
        } else if same_text(name, "policy") {
            Some(Audit::Policy)
        } else if same_text(name, "public-access-blocks") {
            Some(Audit::PublicAccessBlocks)
        } else if same_text(name, "versioning") {
            Some(Audit::Versioning)
        } else if same_text(name, "website") {
            Some(Audit::Website)
        } else if same_text(name, "encryption") || same_text(name, "server-side-encryption")
            || same_text(name, "sse") {
            Some(Audit::ServerSideEncryption)
        } else if same_text(name, "mfa") || same_text(name, "mfa-delete") {
            Some(Audit::MfaDelete)
        } else {
            None
        }
    }

    /// The audit named by `name`, in any case.
    pub fn parse(name: &str) -> (r: Option<Audit>)
        ensures
            r == audit_named(lower_of(name@)),
    {
        let lower = lowercase(name);
        Audit::from_lowercase(lower.as_str())
    }
}

impl Default for Audit {
    fn default() -> (r: Audit)
        ensures
            r == Audit::All,
    {
        Audit::All
    }
}

/// Every category of check, `All` left out.
pub open spec fn full_audit_set() -> Set<Audit> {
    set![
        Audit::Acl,
        Audit::Cloudfront,
        Audit::Logging,
        Audit::MfaDelete,
        Audit::Policy,
        Audit::PublicAccessBlocks,
        Audit::ServerSideEncryption,
        Audit::Versioning,
        Audit::Website,
    ]
}

/// The members of an optional list of audits.
pub open spec fn audit_list(audits: Option<Vec<Audit>>) -> Option<Seq<Audit>> {
    match audits {
        Some(v) => Some(v@),
        None => None,
    }
}

/// The set left after disabling `audits` in `s`.
pub open spec fn after_disable(s: Set<Audit>, audits: Option<Seq<Audit>>) -> Set<Audit> {
    match audits {
        None => s,
        Some(l) => if l.contains(Audit::All) {
            Set::empty()
        } else {
            s.difference(l.to_set())
        },
    }
}

/// The set left after enabling `audits` in `s`.
pub open spec fn after_enable(s: Set<Audit>, audits: Option<Seq<Audit>>) -> Set<Audit> {
    match audits {
        None => s,
        Some(l) => if l.contains(Audit::All) {
            full_audit_set()
        } else {
            s.union(l.to_set())
        },
    }
}

/// A list that holds `All` absorbs the rest: disabling it leaves no audit,
/// enabling it gives every category, whatever the set held before and
/// whatever else the list holds.
pub proof fn lemma_all_absorbs(s: Set<Audit>, audits: Seq<Audit>)
    requires
        audits.contains(Audit::All),
    ensures
        after_disable(s, Some(audits)) == Set::<Audit>::empty(),
        after_enable(s, Some(audits)) == full_audit_set(),
{
}

/// Disabling nothing and then enabling nothing leaves a set as it was; so
/// the default set comes back whole.
pub proof fn lemma_nothing_round_trip(s: Set<Audit>)
    ensures
        after_enable(after_disable(s, None), None) == s,
        after_enable(after_disable(full_audit_set(), None), None) == full_audit_set(),
{
}

/// The audits that a run performs: a set of categories that never holds `All`.
#[derive(Debug)]
pub struct Audits {
    members: Vec<Audit>,
}

impl View for Audits {
    type V = Set<Audit>;

    closed spec fn view(&self) -> Set<Audit> {
        self.members@.to_set()
    }
}

proof fn lemma_push_contains(s: Seq<Audit>, a: Audit, x: Audit)
    ensures
        s.push(a).contains(x) <==> (s.contains(x) || x == a),
{
    if s.contains(x) {
        let k = s.index_of(x);
        assert(s.push(a)[k] == x);
    }
    if x == a {
        assert(s.push(a)[s.len() as int] == a);
    }
    if s.push(a).contains(x) {
        let k = s.push(a).index_of(x);
        if k < s.len() {
            assert(s[k] == x);
        }
    }
}

pub(crate) fn list_contains(list: &Vec<Audit>, a: Audit) -> (r: bool)
    ensures
        r == list@.contains(a),
{
    let mut i: usize = 0;
    while i < list.len()
        invariant
            i <= list.len(),
            forall|j: int| 0 <= j < i ==> list@[j] != a,
        decreases list.len() - i,
    {
        if list[i] == a {
            return true;
        }
        i = i + 1;
    }
    false
}

impl Audits {
    #[verifier::type_invariant]
    spec fn inv(self) -> bool {
        &&& self.members@.no_duplicates()
        &&& !self.members@.contains(Audit::All)
    }

    /// All categories enabled.
    pub fn new() -> (r: Audits)
        ensures
            r@ == full_audit_set(),
    {
        Audits::default()
    }

    fn empty(self) -> (r: Audits)
        ensures
            r@ == Set::<Audit>::empty(),
    {
        let r = Audits { members: Vec::new() };
        assert(r@ =~= Set::<Audit>::empty());
        r
    }

    /// Removes the given audits; a list that holds `All` removes every one.
    pub fn disable(self, audits: Option<Vec<Audit>>) -> (r: Audits)
        ensures
            r@ == after_disable(self@, audit_list(audits)),
    {
        proof {
            use_type_invariant(&self);
        }
        match audits {
            None => self,
            Some(list) => {
                if list_contains(&list, Audit::All) {
                    return self.empty();
                }
                let mut kept: Vec<Audit> = Vec::new();
                let mut i: usize = 0;
                while i < self.members.len()
                    invariant
                        i <= self.members.len(),
                        self.members@.no_duplicates(),
                        !self.members@.contains(Audit::All),
                        kept@.no_duplicates(),
                        forall|x: Audit|
                            kept@.contains(x) <==> (exists|j: int|
                                0 <= j < i && self.members@[j] == x) && !list@.contains(x),
                    decreases self.members.len() - i,
                {
                    let a = self.members[i];
                    let ghost before = kept@;
                    if !list_contains(&list, a) {
                        assert(!kept@.contains(a)) by {
                            if kept@.contains(a) {
                                let j = choose|j: int| 0 <= j < i && self.members@[j] == a;
                                assert(self.members@[j] == self.members@[i as int]);
                            }
                        }
                        kept.push(a);
                    }
                    proof {
                        assert forall|x: Audit|
                            kept@.contains(x) <==> (exists|j: int|
                                0 <= j < i + 1 && self.members@[j] == x) && !list@.contains(x) by {
                            lemma_push_contains(before, a, x);
                            if x == a {
                                assert(self.members@[i as int] == x);
                            } else if exists|j: int| 0 <= j < i + 1 && self.members@[j] == x {
                                let j = choose|j: int| 0 <= j < i + 1 && self.members@[j] == x;
                                assert(0 <= j < i && self.members@[j] == x);
                            }
                        }
                    }
                    i = i + 1;
                }
                proof {
                    assert forall|x: Audit| kept@.contains(x) implies x != Audit::All by {
                        let j = choose|j: int| 0 <= j < self.members@.len() && self.members@[j] == x;
                        assert(self.members@.contains(self.members@[j]));
                    }
                    assert forall|x: Audit| self.members@.contains(x) implies exists|j: int|
                        0 <= j < self.members@.len() && self.members@[j] == x by {
                        let j = self.members@.index_of(x);
                    }
                }
                let r = Audits { members: kept };
                assert(r@ =~= self@.difference(list@.to_set()));
                r
            },
        }
    }

    /// Adds the given audits; a list that holds `All` gives every category.
    pub fn enable(self, audits: Option<Vec<Audit>>) -> (r: Audits)
        ensures
            r@ == after_enable(self@, audit_list(audits)),
    {
        proof {
            use_type_invariant(&self);
        }
        match audits {
            None => self,
            Some(list) => {
                if list_contains(&list, Audit::All) {
                    return Audits::new();
                }
                let ghost start = self.members@;
                let mut members = self.members;
                let mut i: usize = 0;
                while i < list.len()
                    invariant
                        i <= list.len(),
                        !list@.contains(Audit::All),
                        members@.no_duplicates(),
                        !members@.contains(Audit::All),
                        members@.to_set() == start.to_set().union(
                            list@.subrange(0, i as int).to_set(),
                        ),
                    decreases list.len() - i,
                {
                    let a = list[i];
                    let ghost before = members@;
                    if !list_contains(&members, a) {
                        members.push(a);
                    }
                    proof {
                        let done = list@.subrange(0, i as int);
                        assert(list@.subrange(0, i + 1) =~= done.push(a));
                        done.lemma_push_to_set_commute(a);
                        before.lemma_push_to_set_commute(a);
                        assert(members@.to_set() =~= before.to_set().insert(a));
                        assert(members@.to_set() =~= start.to_set().union(
                            list@.subrange(0, i + 1).to_set(),
                        ));
                    }
                    i = i + 1;
                }
                assert(list@.subrange(0, list@.len() as int) =~= list@);
                let r = Audits { members };
                assert(r@ =~= start.to_set().union(list@.to_set()));
                r
            },
        }
    }

    /// The enabled audits, each once, in no particular order.
    pub fn enabled(self) -> (r: Vec<Audit>)
        ensures
            r@.to_set() == self@,
            r@.no_duplicates(),
            !r@.contains(Audit::All),
    {
        proof {
            use_type_invariant(&self);
        }
        self.members
    }
}

impl Default for Audits {
    fn default() -> (r: Audits)
        ensures
            r@ == full_audit_set(),
    {
        let members = vec![
            Audit::Acl,
            Audit::Cloudfront,
            Audit::Logging,
            Audit::MfaDelete,
            Audit::Policy,
            Audit::PublicAccessBlocks,
            Audit::ServerSideEncryption,
            Audit::Versioning,
            Audit::Website,
        ];
        let r = Audits { members };
        assert(r@ =~= full_audit_set());
        r
    }
}

} // verus!
