//! An in-memory model of the queue control plane: the state a queue service
//! keeps, and the calls the provisioning algorithm makes against it.  The
//! provisioning machines are verified against this model and the laws and
//! tests run on it.

use crate::naming::candidate_url_seq;
use vstd::prelude::*;
use vstd::string::*;

verus! {

/// The attributes the queue layer sets.
#[derive(Clone, Copy, PartialEq, Eq, Structural, Debug)]
pub enum QueueAttribute {
    VisibilityTimeout,
    RedrivePolicy,
}

/// One queue as the control plane keeps it.
#[derive(Clone, Debug)]
pub struct QueueRecord {
    pub name: String,
    pub url: String,
    pub arn: String,
    pub visibility_timeout: Option<String>,
    pub redrive_policy: Option<String>,
}

/// The spec-level shape of one queue.
pub struct QueueRecordV {
    pub name: Seq<char>,
    pub url: Seq<char>,
    pub arn: Seq<char>,
    pub visibility_timeout: Option<Seq<char>>,
    pub redrive_policy: Option<Seq<char>>,
}

impl View for QueueRecord {
    type V = QueueRecordV;

    open spec fn view(&self) -> QueueRecordV {
        QueueRecordV {
            name: self.name@,
            url: self.url@,
            arn: self.arn@,
            visibility_timeout: match self.visibility_timeout {
                Some(v) => Some(v@),
                None => None,
            },
            redrive_policy: match self.redrive_policy {
                Some(v) => Some(v@),
                None => None,
            },
        }
    }
}

/// The queue control plane: a base under which it mints queue URLs, and the
/// queues it holds.
pub struct QueueStore {
    pub url_base: String,
    pub records: Vec<QueueRecord>,
}

/// The spec-level shape of the control plane.
pub struct QueueStoreV {
    pub url_base: Seq<char>,
    pub records: Seq<QueueRecordV>,
}

impl View for QueueStore {
    type V = QueueStoreV;

    open spec fn view(&self) -> QueueStoreV {
        QueueStoreV { url_base: self.url_base@, records: self.records@.map_values(|r: QueueRecord| r@) }
    }
}

/// The index of the queue of that name, or -1.
pub open spec fn find_name(recs: Seq<QueueRecordV>, name: Seq<char>) -> int
    decreases recs.len(),
{
    if recs.len() == 0 {
        -1
    } else if recs[0].name == name {
        0
    } else {
        let r = find_name(recs.skip(1), name);
        if r == -1 {
            -1
        } else {
            r + 1
        }
    }
}

/// The index of the queue of that URL, or -1.
pub open spec fn find_url(recs: Seq<QueueRecordV>, url: Seq<char>) -> int
    decreases recs.len(),
{
    if recs.len() == 0 {
        -1
    } else if recs[0].url == url {
        0
    } else {
        let r = find_url(recs.skip(1), url);
        if r == -1 {
            -1
        } else {
            r + 1
        }
    }
}

/// Whether the plane holds a queue of that name.
pub open spec fn has_name(s: QueueStoreV, name: Seq<char>) -> bool {
    find_name(s.records, name) != -1
}

/// Whether the plane holds a queue of that URL.
pub open spec fn has_url(s: QueueStoreV, url: Seq<char>) -> bool {
    find_url(s.records, url) != -1
}

/// The URL the plane mints for a queue name.
pub open spec fn mint_url(base: Seq<char>, name: Seq<char>) -> Seq<char> {
    candidate_url_seq(base, name)
}

/// The ARN the plane mints for a queue name.
pub open spec fn mint_arn(name: Seq<char>) -> Seq<char> {
    "arn:"@ + name
}

/// A fresh queue: just a name, a minted URL and ARN, and no attributes.
pub open spec fn fresh_record(base: Seq<char>, name: Seq<char>) -> QueueRecordV {
    QueueRecordV {
        name: name,
        url: mint_url(base, name),
        arn: mint_arn(name),
        visibility_timeout: None,
        redrive_policy: None,
    }
}

/// `find_name` finds an in-range index holding the name, and misses only
/// when no queue has the name.
pub proof fn lemma_find_name(recs: Seq<QueueRecordV>, name: Seq<char>)
    ensures
        find_name(recs, name) == -1 ==> forall|i: int|
            0 <= i < recs.len() ==> (#[trigger] recs[i]).name != name,
        find_name(recs, name) != -1 ==> 0 <= find_name(recs, name) < recs.len() && recs[find_name(
            recs,
            name,
        )].name == name,
    decreases recs.len(),
{
    if recs.len() > 0 {
        lemma_find_name(recs.skip(1), name);
        assert forall|i: int| 1 <= i < recs.len() implies recs.skip(1)[i - 1] == recs[i] by {}
    }
}

/// `find_url` finds an in-range index holding the URL, and misses only when
/// no queue has the URL.
pub proof fn lemma_find_url(recs: Seq<QueueRecordV>, url: Seq<char>)
    ensures
        find_url(recs, url) == -1 ==> forall|i: int|
            0 <= i < recs.len() ==> (#[trigger] recs[i]).url != url,
        find_url(recs, url) != -1 ==> 0 <= find_url(recs, url) < recs.len() && recs[find_url(
            recs,
            url,
        )].url == url,
    decreases recs.len(),
{
    if recs.len() > 0 {
        lemma_find_url(recs.skip(1), url);
        assert forall|i: int| 1 <= i < recs.len() implies recs.skip(1)[i - 1] == recs[i] by {}
    }
}

impl QueueStore {
    /// Opens an empty control plane minting URLs under `url_base`.
    pub fn new(url_base: String) -> (r: QueueStore)
        ensures
            r@.url_base == url_base@,
            r@.records.len() == 0,
    {
        let r = QueueStore { url_base, records: Vec::new() };
        proof {
            assert(r@.records =~= Seq::<QueueRecordV>::empty());
        }
        r
    }

    /// How many queues the plane holds.
    pub fn len(&self) -> (r: usize)
        ensures
            r == self@.records.len(),
    {
        self.records.len()
    }

    /// The index of the queue of that name, if any.
    fn index_of_name(&self, name: &str) -> (r: Option<usize>)
        ensures
            r matches Some(i) ==> i as int == find_name(self@.records, name@),
            r is None ==> find_name(self@.records, name@) == -1,
    {
        let ghost recs = self@.records;
        let mut i: usize = 0;
        while i < self.records.len()
            invariant
                0 <= i <= self.records.len(),
                recs == self@.records,
                recs.len() == self.records.len(),
                forall|j: int| 0 <= j < i ==> (#[trigger] recs[j]).name != name@,
            decreases self.records.len() - i,
        {
            proof {
                assert(recs[i as int] == self.records@[i as int]@);
            }
            if eq_str(&self.records[i].name, name) {
                proof {
                    lemma_find_name_hit(recs, name@, i as int);
                }
                return Some(i);
            }
            i += 1;
        }
        proof {
            lemma_find_name_miss(recs, name@);
        }
        None
    }

    /// The index of the queue of that URL, if any.
    fn index_of_url(&self, url: &str) -> (r: Option<usize>)
        ensures
            r matches Some(i) ==> i as int == find_url(self@.records, url@),
            r is None ==> find_url(self@.records, url@) == -1,
    {
        let ghost recs = self@.records;
        let mut i: usize = 0;
        while i < self.records.len()
            invariant
                0 <= i <= self.records.len(),
                recs == self@.records,
                recs.len() == self.records.len(),
                forall|j: int| 0 <= j < i ==> (#[trigger] recs[j]).url != url@,
            decreases self.records.len() - i,
        {
            proof {
                assert(recs[i as int] == self.records@[i as int]@);
            }
            if eq_str(&self.records[i].url, url) {
                proof {
                    lemma_find_url_hit(recs, url@, i as int);
                }
                return Some(i);
            }
            i += 1;
        }
        proof {
            lemma_find_url_miss(recs, url@);
        }
        None
    }

    /// The existence probe: whether an attribute fetch on this URL succeeds.
    pub fn probe_url(&self, url: &str) -> (r: bool)
        ensures
            r == has_url(self@, url@),
    {
        match self.index_of_url(url) {
            Some(_) => true,
            None => false,
        }
    }

    /// Creates a queue of that name and returns its URL.  Creating a name
    /// the plane already holds changes nothing and returns the URL it
    /// already has.
    pub fn create_queue(&mut self, name: &str) -> (r: String)
        ensures
            has_name(old(self)@, name@) ==> final(self)@ == old(self)@
                && r@ == old(self)@.records[find_name(old(self)@.records, name@)].url,
            !has_name(old(self)@, name@) ==> final(self)@.url_base == old(self)@.url_base
                && final(self)@.records == old(self)@.records.push(fresh_record(old(self)@.url_base, name@))
                && r@ == mint_url(old(self)@.url_base, name@),
    {
        match self.index_of_name(name) {
            Some(i) => {
                proof {
                    lemma_find_name(self@.records, name@);
                }
                self.records[i].url.clone()
            },
            None => {
                let url = crate::naming::candidate_queue_url(self.url_base.as_str(), name);
                let mut arn = String::new();
                arn.append("arn:");
                arn.append(name);
                let rec = QueueRecord {
                    name: name.to_owned(),
                    url: url.clone(),
                    arn,
                    visibility_timeout: None,
                    redrive_policy: None,
                };
                proof {
                    assert(rec@ == fresh_record(self@.url_base, name@));
                }
                let ghost before = self@.records;
                self.records.push(rec);
                proof {
                    assert(self@.records =~= before.push(fresh_record(self@.url_base, name@)));
                }
                url
            },
        }
    }

    /// The URL of the queue of that name, if any.
    pub fn get_queue_url(&self, name: &str) -> (r: Option<String>)
        ensures
            r matches Some(u) ==> has_name(self@, name@) && u@ == self@.records[find_name(
                self@.records,
                name@,
            )].url,
            r is None ==> !has_name(self@, name@),
    {
        match self.index_of_name(name) {
            Some(i) => {
                proof {
                    lemma_find_name(self@.records, name@);
                }
                Some(self.records[i].url.clone())
            },
            None => None,
        }
    }

    /// The ARN of the queue of that URL, if any.
    pub fn get_queue_arn(&self, url: &str) -> (r: Option<String>)
        ensures
            r matches Some(a) ==> has_url(self@, url@) && a@ == self@.records[find_url(
                self@.records,
                url@,
            )].arn,
            r is None ==> !has_url(self@, url@),
    {
        match self.index_of_url(url) {
            Some(i) => {
                proof {
                    lemma_find_url(self@.records, url@);
                }
                Some(self.records[i].arn.clone())
            },
            None => None,
        }
    }

    /// Applies an attribute set to the queue of that URL in one update:
    /// every named attribute is overwritten, the rest stay.  False when the
    /// plane holds no queue of that URL.
    pub fn set_attributes(&mut self, url: &str, attributes: &Vec<(QueueAttribute, String)>) -> (r:
        bool)
        ensures
            r == has_url(old(self)@, url@),
            !r ==> final(self)@ == old(self)@,
            r ==> final(self)@.url_base == old(self)@.url_base
                && final(self)@.records == old(self)@.records.update(
                find_url(old(self)@.records, url@),
                apply_attributes(
                    old(self)@.records[find_url(old(self)@.records, url@)],
                    attributes@,
                ),
            ),
    {
        match self.index_of_url(url) {
            Some(i) => {
                proof {
                    lemma_find_url(self@.records, url@);
                }
                let ghost before = self@.records;
                let ghost idx = find_url(self@.records, url@);
                let mut rec = clone_record(&self.records[i]);
                let mut j: usize = 0;
                proof {
                    assert(attributes@.take(0) =~= Seq::<(QueueAttribute, String)>::empty());
                }
                while j < attributes.len()
                    invariant
                        0 <= j <= attributes@.len(),
                        0 <= idx < before.len(),
                        rec@ == apply_attributes(before[idx], attributes@.take(j as int)),
                    decreases attributes@.len() - j,
                {
                    proof {
                        assert(attributes@.take(j + 1).drop_last() =~= attributes@.take(j as int));
                        assert(attributes@.take(j + 1).last() == attributes@[j as int]);
                    }
                    let value = attributes[j].1.clone();
                    match attributes[j].0 {
                        QueueAttribute::VisibilityTimeout => {
                            rec.visibility_timeout = Some(value);
                        },
                        QueueAttribute::RedrivePolicy => {
                            rec.redrive_policy = Some(value);
                        },
                    }
                    j += 1;
                }
                proof {
                    assert(attributes@.take(attributes@.len() as int) =~= attributes@);
                }
                self.records.set(i, rec);
                proof {
                    assert(self@.records =~= before.update(
                        idx,
                        apply_attributes(before[idx], attributes@),
                    ));
                }
                true
            },
            None => false,
        }
    }

    /// Deletes the queue of that URL.  False when the plane holds none.
    pub fn delete_queue(&mut self, url: &str) -> (r: bool)
        ensures
            r == has_url(old(self)@, url@),
            !r ==> final(self)@ == old(self)@,
            r ==> final(self)@.url_base == old(self)@.url_base
                && final(self)@.records == old(self)@.records.remove(find_url(old(self)@.records, url@)),
    {
        match self.index_of_url(url) {
            Some(i) => {
                proof {
                    lemma_find_url(self@.records, url@);
                }
                let ghost before = self@.records;
                self.records.remove(i);
                proof {
                    assert(self@.records =~= before.remove(i as int));
                }
                true
            },
            None => false,
        }
    }

    /// A copy of the queue at an index, for inspection.
    pub fn record_at(&self, i: usize) -> (r: QueueRecord)
        requires
            i < self@.records.len(),
        ensures
            r@ == self@.records[i as int],
    {
        clone_record(&self.records[i])
    }

    /// The index of the queue of that name, for inspection.
    pub fn find_index_of_name(&self, name: &str) -> (r: Option<usize>)
        ensures
            r matches Some(i) ==> i as int == find_name(self@.records, name@) && (i as int)
                < self@.records.len() && self@.records[i as int].name == name@,
            r is None ==> !has_name(self@, name@),
    {
        proof {
            lemma_find_name(self@.records, name@);
        }
        self.index_of_name(name)
    }
}

/// Applying an attribute list to a queue, first to last.
pub open spec fn apply_attributes(
    rec: QueueRecordV,
    attributes: Seq<(QueueAttribute, String)>,
) -> QueueRecordV
    decreases attributes.len(),
{
    if attributes.len() == 0 {
        rec
    } else {
        let prev = apply_attributes(rec, attributes.drop_last());
        let last = attributes.last();
        match last.0 {
            QueueAttribute::VisibilityTimeout => QueueRecordV {
                visibility_timeout: Some(last.1@),
                ..prev
            },
            QueueAttribute::RedrivePolicy => QueueRecordV { redrive_policy: Some(last.1@), ..prev },
        }
    }
}

/// Control-plane well-formedness: queue names are unique, and every URL is
/// the one minted for its name.  `QueueStore::new` establishes it and every
/// operation keeps it.
pub open spec fn store_wf(s: QueueStoreV) -> bool {
    &&& forall|i: int, j: int|
        0 <= i < j < s.records.len() ==> (#[trigger] s.records[i]).name != (
        #[trigger] s.records[j]).name
    &&& forall|i: int|
        0 <= i < s.records.len() ==> (#[trigger] s.records[i]).url == mint_url(
            s.url_base,
            s.records[i].name,
        )
}

/// Two names minted under one base collide only when they are equal.
pub proof fn lemma_mint_url_injective(base: Seq<char>, n1: Seq<char>, n2: Seq<char>)
    requires
        mint_url(base, n1) == mint_url(base, n2),
    ensures
        n1 == n2,
{
    reveal_strlit("/");
    assert(mint_url(base, n1).len() == base.len() + 1 + n1.len());
    assert(mint_url(base, n2).len() == base.len() + 1 + n2.len());
    assert(n1.len() == n2.len());
    assert forall|k: int| 0 <= k < n1.len() implies n1[k] == n2[k] by {
        assert(mint_url(base, n1)[base.len() + 1 + k] == n1[k]);
        assert(mint_url(base, n2)[base.len() + 1 + k] == n2[k]);
    }
    assert(n1 =~= n2);
}

/// In a well-formed plane, looking a queue's own URL up finds that queue.
pub proof fn lemma_find_url_of_index(s: QueueStoreV, k: int)
    requires
        store_wf(s),
        0 <= k < s.records.len(),
    ensures
        find_url(s.records, s.records[k].url) == k,
{
    lemma_find_url(s.records, s.records[k].url);
    let j = find_url(s.records, s.records[k].url);
    assert(j != -1);
    if j != k {
        assert(s.records[j].url == mint_url(s.url_base, s.records[j].name));
        assert(s.records[k].url == mint_url(s.url_base, s.records[k].name));
        lemma_mint_url_injective(s.url_base, s.records[j].name, s.records[k].name);
    }
}

/// A field-wise copy of a queue record.
pub fn clone_record(r: &QueueRecord) -> (c: QueueRecord)
    ensures
        c@ == r@,
{
    QueueRecord {
        name: r.name.clone(),
        url: r.url.clone(),
        arn: r.arn.clone(),
        visibility_timeout: match &r.visibility_timeout {
            Some(v) => Some(v.clone()),
            None => None,
        },
        redrive_policy: match &r.redrive_policy {
            Some(v) => Some(v.clone()),
            None => None,
        },
    }
}

/// String equality by characters.
pub fn eq_str(a: &str, b: &str) -> (r: bool)
    ensures
        r == (a@ == b@),
{
    let n = a.unicode_len();
    let m = b.unicode_len();
    if n != m {
        return false;
    }
    let mut i: usize = 0;
    while i < n
        invariant
            0 <= i <= n,
            n == a@.len(),
            n == b@.len(),
            forall|j: int| 0 <= j < i ==> a@[j] == b@[j],
        decreases n - i,
    {
        if a.get_char(i) != b.get_char(i) {
            return false;
        }
        i += 1;
    }
    proof {
        assert(a@ =~= b@);
    }
    true
}

/// A hit during a left-to-right scan is what `find_name` returns.
pub proof fn lemma_find_name_hit(recs: Seq<QueueRecordV>, name: Seq<char>, i: int)
    requires
        0 <= i < recs.len(),
        recs[i].name == name,
        forall|j: int| 0 <= j < i ==> (#[trigger] recs[j]).name != name,
    ensures
        find_name(recs, name) == i,
    decreases i,
{
    if i > 0 {
        lemma_find_name_hit(recs.skip(1), name, i - 1);
    } else {
        assert(recs[0].name == name);
    }
}

/// A full scan without a hit is what makes `find_name` miss.
pub proof fn lemma_find_name_miss(recs: Seq<QueueRecordV>, name: Seq<char>)
    requires
        forall|j: int| 0 <= j < recs.len() ==> (#[trigger] recs[j]).name != name,
    ensures
        find_name(recs, name) == -1,
    decreases recs.len(),
{
    if recs.len() > 0 {
        lemma_find_name_miss(recs.skip(1), name);
    }
}

/// A hit during a left-to-right scan is what `find_url` returns.
pub proof fn lemma_find_url_hit(recs: Seq<QueueRecordV>, url: Seq<char>, i: int)
    requires
        0 <= i < recs.len(),
        recs[i].url == url,
        forall|j: int| 0 <= j < i ==> (#[trigger] recs[j]).url != url,
    ensures
        find_url(recs, url) == i,
    decreases i,
{
    if i > 0 {
        lemma_find_url_hit(recs.skip(1), url, i - 1);
    } else {
        assert(recs[0].url == url);
    }
}

/// A full scan without a hit is what makes `find_url` miss.
pub proof fn lemma_find_url_miss(recs: Seq<QueueRecordV>, url: Seq<char>)
    requires
        forall|j: int| 0 <= j < recs.len() ==> (#[trigger] recs[j]).url != url,
    ensures
        find_url(recs, url) == -1,
    decreases recs.len(),
{
    if recs.len() > 0 {
        lemma_find_url_miss(recs.skip(1), url);
    }
}

} // verus!
