//! The closed sets of resource kinds and of periodic worker triggers, and the
//! case-insensitive mapping from strings to resource kinds.

use vstd::prelude::*;
use vstd::string::*;

verus! {

/// A provisionable resource kind.  Used as the key of the readiness table and
/// of the creator registry.
#[derive(Clone, Copy, PartialEq, Eq, Structural, Debug, Hash)]
pub enum ResourceType {
    Queue,
    Storage,
    Cron,
    Notification,
}

/// A category of periodic job; the scheduling layer routes each to its own
/// queue.  The catalog order is fixed: Snos, Proving, DataSubmission,
/// UpdateState.
#[derive(Clone, Copy, PartialEq, Eq, Structural, Debug, Hash)]
pub enum WorkerTriggerType {
    Snos,
    Proving,
    DataSubmission,
    UpdateState,
}

/// ASCII case folding of one character: `A`..`Z` map to `a`..`z`, every other
/// character is left alone.
pub open spec fn lower_char(c: char) -> char {
    if 'A' <= c && c <= 'Z' {
        (c as u32 + 32) as char
    } else {
        c
    }
}

/// ASCII case folding of a character sequence.
pub open spec fn lower_seq(s: Seq<char>) -> Seq<char> {
    s.map_values(|c: char| lower_char(c))
}

/// The lower-case name of a resource kind.
pub open spec fn kind_name(k: ResourceType) -> Seq<char> {
    match k {
        ResourceType::Queue => "queue"@,
        ResourceType::Storage => "storage"@,
        ResourceType::Cron => "cron"@,
        ResourceType::Notification => "notification"@,
    }
}

/// What `ResourceType::from_str` returns: the kind whose name the input equals
/// up to ASCII case, and no kind otherwise.
pub open spec fn from_str_model(s: Seq<char>) -> Option<ResourceType> {
    if lower_seq(s) == kind_name(ResourceType::Queue) {
        Some(ResourceType::Queue)
    } else if lower_seq(s) == kind_name(ResourceType::Storage) {
        Some(ResourceType::Storage)
    } else if lower_seq(s) == kind_name(ResourceType::Cron) {
        Some(ResourceType::Cron)
    } else if lower_seq(s) == kind_name(ResourceType::Notification) {
        Some(ResourceType::Notification)
    } else {
        None
    }
}

/// Whether two characters are equal up to ASCII case.
fn char_eq_ignore_case(a: char, b: char) -> (r: bool)
    ensures
        r == (lower_char(a) == lower_char(b)),
{
    let x = a as u32;
    let y = b as u32;
    let xl: u32 = if 65 <= x && x <= 90 {
        x + 32
    } else {
        x
    };
    let yl: u32 = if 65 <= y && y <= 90 {
        y + 32
    } else {
        y
    };
    proof {
        assert(xl == lower_char(a) as u32);
        assert(yl == lower_char(b) as u32);
    }
    xl == yl
}

/// Whether two strings are equal up to ASCII case.
pub fn eq_ignore_ascii_case(s: &str, t: &str) -> (r: bool)
    ensures
        r == (lower_seq(s@) == lower_seq(t@)),
{
    let n = s.unicode_len();
    let m = t.unicode_len();
    if n != m {
        proof {
            assert(lower_seq(s@).len() != lower_seq(t@).len());
        }
        return false;
    }
    let mut i: usize = 0;
    while i < n
        invariant
            i <= n,
            n == s@.len(),
            n == t@.len(),
            forall|j: int| 0 <= j < i ==> lower_char(s@[j]) == lower_char(t@[j]),
        decreases n - i,
    {
        let a = s.get_char(i);
        let b = t.get_char(i);
        if !char_eq_ignore_case(a, b) {
            proof {
                assert(lower_seq(s@)[i as int] != lower_seq(t@)[i as int]);
            }
            return false;
        }
        i += 1;
    }
    proof {
        assert(lower_seq(s@) =~= lower_seq(t@));
    }
    true
}

impl ResourceType {
    /// Maps a string to the resource kind of that name, up to ASCII case.
    /// Any string naming no kind maps to `None`, never to a default kind.
    pub fn from_str(resource_type: &str) -> (r: Option<ResourceType>)
        ensures
            r == from_str_model(resource_type@),
    {
        proof {
            lemma_kind_names_folded();
        }
        if eq_ignore_ascii_case(resource_type, "queue") {
            Some(ResourceType::Queue)
        } else if eq_ignore_ascii_case(resource_type, "storage") {
            Some(ResourceType::Storage)
        } else if eq_ignore_ascii_case(resource_type, "cron") {
            Some(ResourceType::Cron)
        } else if eq_ignore_ascii_case(resource_type, "notification") {
            Some(ResourceType::Notification)
        } else {
            None
        }
    }

    /// The lower-case label of a resource kind, for messages and lookups.
    pub fn label(&self) -> (r: &'static str)
        ensures
            r@ == kind_name(*self),
    {
        match self {
            ResourceType::Queue => "queue",
            ResourceType::Storage => "storage",
            ResourceType::Cron => "cron",
            ResourceType::Notification => "notification",
        }
    }
}

/// The four kind names are already lower case, so folding leaves them alone.
proof fn lemma_kind_names_folded()
    ensures
        forall|k: ResourceType| #[trigger] lower_seq(kind_name(k)) == kind_name(k),
{
    reveal_strlit("queue");
    reveal_strlit("storage");
    reveal_strlit("cron");
    reveal_strlit("notification");
    assert forall|k: ResourceType| #[trigger] lower_seq(kind_name(k)) == kind_name(k) by {
        assert(lower_seq(kind_name(k)) =~= kind_name(k));
    }
}

/// ASCII case folding is idempotent.
proof fn lemma_lower_seq_idempotent(s: Seq<char>)
    ensures
        lower_seq(lower_seq(s)) == lower_seq(s),
{
    assert(lower_seq(lower_seq(s)) =~= lower_seq(s));
}

/// The kind-name mapping is insensitive to ASCII case: folding the input
/// changes nothing.  And it matches exactly the four kind names: the mapping
/// succeeds precisely on the strings that fold to the name of some kind, and
/// then yields that kind.
pub proof fn lemma_kind_name_mapping(s: Seq<char>)
    ensures
        from_str_model(lower_seq(s)) == from_str_model(s),
        forall|k: ResourceType| lower_seq(s) == kind_name(k) <==> from_str_model(s) == Some(k),
{
    lemma_lower_seq_idempotent(s);
    lemma_kind_names_folded();
    reveal_strlit("queue");
    reveal_strlit("storage");
    reveal_strlit("cron");
    reveal_strlit("notification");
    assert(kind_name(ResourceType::Queue).len() == 5);
    assert(kind_name(ResourceType::Storage).len() == 7);
    assert(kind_name(ResourceType::Cron).len() == 4);
    assert(kind_name(ResourceType::Notification).len() == 12);
}

/// The fixed, deterministically ordered catalog of worker triggers.
pub open spec fn worker_trigger_catalog() -> Seq<WorkerTriggerType> {
    seq![
        WorkerTriggerType::Snos,
        WorkerTriggerType::Proving,
        WorkerTriggerType::DataSubmission,
        WorkerTriggerType::UpdateState,
    ]
}

/// Builds the worker-trigger catalog in its fixed order.
pub fn worker_triggers() -> (r: Vec<WorkerTriggerType>)
    ensures
        r@ == worker_trigger_catalog(),
{
    let mut v: Vec<WorkerTriggerType> = Vec::new();
    v.push(WorkerTriggerType::Snos);
    v.push(WorkerTriggerType::Proving);
    v.push(WorkerTriggerType::DataSubmission);
    v.push(WorkerTriggerType::UpdateState);
    proof {
        assert(v@ =~= worker_trigger_catalog());
    }
    v
}

} // verus!
