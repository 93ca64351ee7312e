use vstd::prelude::*;

use crate::forward::Protocol;
use crate::text::{joined, str_eq};

verus! {

/// A moment, as seconds and nanoseconds since the start of 1970 in UTC.
#[derive(Clone, Copy, Debug, PartialEq, Eq, Structural)]
pub struct Timestamp {
    pub secs: i64,
    pub nanos: u32,
}

/// A port forward that this system has set up.
#[derive(Debug)]
pub struct PortForward {
    pub name: String,
    pub src_port: String,
    pub dest_ip: String,
    pub dest_port: String,
    pub protocol: Protocol,
    pub created: Timestamp,
    pub active: bool,
}

/// A `PortForward` as the mathematics sees it.
pub struct ForwardRecord {
    pub name: Seq<char>,
    pub src_port: Seq<char>,
    pub dest_ip: Seq<char>,
    pub dest_port: Seq<char>,
    pub protocol: Protocol,
    pub created: Timestamp,
    pub active: bool,
}

impl View for PortForward {
    type V = ForwardRecord;

    open spec fn view(&self) -> ForwardRecord {
        ForwardRecord {
            name: self.name@,
            src_port: self.src_port@,
            dest_ip: self.dest_ip@,
            dest_port: self.dest_port@,
            protocol: self.protocol,
            created: self.created,
            active: self.active,
        }
    }
}

impl Clone for PortForward {
    fn clone(&self) -> (copy: PortForward)
        ensures
            copy@ == self@,
    {
        PortForward {
            name: self.name.clone(),
            src_port: self.src_port.clone(),
            dest_ip: self.dest_ip.clone(),
            dest_port: self.dest_port.clone(),
            protocol: self.protocol,
            created: self.created,
            active: self.active,
        }
    }
}

/// The records of a list of forwards, in order.
pub open spec fn records(entries: Seq<PortForward>) -> Seq<ForwardRecord> {
    entries.map_values(|f: PortForward| f@)
}

/// Whether some record of `s` is called `name`.
pub open spec fn has_name(s: Seq<ForwardRecord>, name: Seq<char>) -> bool {
    exists|i: int| 0 <= i < s.len() && #[trigger] s[i].name == name
}

/// Whether no two records of `s` share a name.
pub open spec fn names_distinct(s: Seq<ForwardRecord>) -> bool {
    forall|i: int, j: int|
        0 <= i < s.len() && 0 <= j < s.len() && i != j ==> #[trigger] s[i].name != #[trigger] s[j].name
}

/// The records of `s` by name; of two records with one name the later counts.
pub open spec fn by_name(s: Seq<ForwardRecord>) -> Map<Seq<char>, ForwardRecord>
    decreases s.len(),
{
    if s.len() == 0 {
        Map::empty()
    } else {
        by_name(s.drop_last()).insert(s.last().name, s.last())
    }
}

/// The names in `by_name(s)` are those of the records of `s`.
pub proof fn lemma_by_name_domain(s: Seq<ForwardRecord>, name: Seq<char>)
    ensures
        by_name(s).dom().contains(name) <==> has_name(s, name),
    decreases s.len(),
{
    if s.len() > 0 {
        let front = s.drop_last();
        lemma_by_name_domain(front, name);
        if has_name(s, name) {
            let i = choose|i: int| 0 <= i < s.len() && #[trigger] s[i].name == name;
            if i < s.len() - 1 {
                assert(front[i].name == name);
            }
        }
        if has_name(front, name) {
            let i = choose|i: int| 0 <= i < front.len() && #[trigger] front[i].name == name;
            assert(s[i].name == name);
        }
        if s.last().name == name {
            assert(s[s.len() - 1].name == name);
        }
    }
}

/// Where no two records share a name, `by_name(s)` gives each record of `s`
/// under its name.
pub proof fn lemma_by_name_value(s: Seq<ForwardRecord>, i: int)
    requires
        names_distinct(s),
        0 <= i < s.len(),
    ensures
        by_name(s).dom().contains(s[i].name),
        by_name(s)[s[i].name] == s[i],
    decreases s.len(),
{
    let front = s.drop_last();
    if i < s.len() - 1 {
        assert(names_distinct(front)) by {
            assert forall|a: int, b: int|
                0 <= a < front.len() && 0 <= b < front.len() && a != b implies #[trigger] front[a].name
                != #[trigger] front[b].name by {
                assert(s[a].name != s[b].name);
            }
        }
        lemma_by_name_value(front, i);
        assert(s[i].name != s[s.len() - 1].name);
    }
}

/// Taking the record at `i` out of a list without shared names takes its
/// name, and no other, out of `by_name`.
pub proof fn lemma_by_name_remove(s: Seq<ForwardRecord>, i: int)
    requires
        names_distinct(s),
        0 <= i < s.len(),
    ensures
        names_distinct(s.remove(i)),
        by_name(s.remove(i)) == by_name(s).remove(s[i].name),
    decreases s.len(),
{
    let rest = s.remove(i);
    assert(names_distinct(rest)) by {
        assert forall|a: int, b: int|
            0 <= a < rest.len() && 0 <= b < rest.len() && a != b implies #[trigger] rest[a].name
            != #[trigger] rest[b].name by {
            let a2 = if a < i { a } else { a + 1 };
            let b2 = if b < i { b } else { b + 1 };
            assert(s[a2].name != s[b2].name);
        }
    }
    let front = s.drop_last();
    if i == s.len() - 1 {
        assert(rest =~= front);
        assert(!has_name(front, s[i].name)) by {
            if has_name(front, s[i].name) {
                let k = choose|k: int| 0 <= k < front.len() && #[trigger] front[k].name == s[i].name;
                assert(s[k].name != s[i].name);
            }
        }
        lemma_by_name_domain(front, s[i].name);
        assert(by_name(s).remove(s[i].name) =~= by_name(front));
    } else {
        assert(names_distinct(front)) by {
            assert forall|a: int, b: int|
                0 <= a < front.len() && 0 <= b < front.len() && a != b implies #[trigger] front[a].name
                != #[trigger] front[b].name by {
                assert(s[a].name != s[b].name);
            }
        }
        lemma_by_name_remove(front, i);
        assert(rest.drop_last() =~= front.remove(i));
        assert(rest.last() == s.last());
        assert(s[i].name != s[s.len() - 1].name);
        assert(by_name(rest) =~= by_name(s).remove(s[i].name));
    }
}

/// The forwards that this system believes it has set up, each under its
/// name. No two of them share a name.
#[derive(Debug)]
pub struct ForwardStore {
    entries: Vec<PortForward>,
}

impl View for ForwardStore {
    type V = Seq<ForwardRecord>;

    closed spec fn view(&self) -> Seq<ForwardRecord> {
        records(self.entries@)
    }
}

impl ForwardStore {
    #[verifier::type_invariant]
    spec fn inv(self) -> bool {
        names_distinct(records(self.entries@))
    }

    /// Whether no two forwards of the store share a name. It holds of every
    /// store that the program can hold.
    pub open spec fn wf(&self) -> bool {
        names_distinct(self@)
    }

    /// Whether the store holds a forward called `name`.
    pub open spec fn has(&self, name: Seq<char>) -> bool {
        has_name(self@, name)
    }

    /// The forwards of the store by name.
    pub open spec fn map(&self) -> Map<Seq<char>, ForwardRecord> {
        by_name(self@)
    }

    /// A store without forwards.
    pub fn new() -> (store: ForwardStore)
        ensures
            store@ == Seq::<ForwardRecord>::empty(),
            store.wf(),
    {
        let store = ForwardStore { entries: Vec::new() };
        assert(store@ =~= Seq::<ForwardRecord>::empty());
        store
    }

    /// A store that holds `entries`, where no two of them share a name.
    pub fn from_entries(entries: Vec<PortForward>) -> (store: Option<ForwardStore>)
        ensures
            store is Some <==> names_distinct(records(entries@)),
            store matches Some(s) ==> s@ == records(entries@) && s.wf(),
    {
        let ghost all = records(entries@);
        let mut i: usize = 0;
        while i < entries.len()
            invariant
                i <= entries.len(),
                all == records(entries@),
                forall|a: int, b: int|
                    0 <= a < i && 0 <= b < i && a != b ==> #[trigger] all[a].name
                        != #[trigger] all[b].name,
            decreases entries.len() - i,
        {
            let mut k: usize = 0;
            while k < i
                invariant
                    k <= i < entries.len(),
                    all == records(entries@),
                    forall|a: int| 0 <= a < k ==> (#[trigger] all[a]).name != all[i as int].name,
                decreases i - k,
            {
                if str_eq(entries[k].name.as_str(), entries[i].name.as_str()) {
                    assert(all[k as int].name == all[i as int].name);
                    return None;
                }
                k = k + 1;
            }
            i = i + 1;
        }
        Some(ForwardStore { entries })
    }

    /// How many forwards the store holds.
    pub fn len(&self) -> (n: usize)
        ensures
            n == self@.len(),
            self.wf(),
    {
        proof {
            use_type_invariant(self);
        }
        self.entries.len()
    }

    /// The forwards of the store, oldest first.
    pub fn entries(&self) -> (list: &Vec<PortForward>)
        ensures
            records(list@) == self@,
            self.wf(),
    {
        proof {
            use_type_invariant(self);
        }
        &self.entries
    }

    /// The place of the forward called `name`, if the store holds one.
    pub fn position(&self, name: &str) -> (place: Option<usize>)
        ensures
            self.wf(),
            place is Some <==> self.has(name@),
            place matches Some(i) ==> i < self@.len() && self@[i as int].name == name@,
    {
        proof {
            use_type_invariant(self);
        }
        let mut i: usize = 0;
        while i < self.entries.len()
            invariant
                i <= self.entries.len(),
                self.wf(),
                forall|k: int| 0 <= k < i ==> (#[trigger] self@[k]).name != name@,
            decreases self.entries.len() - i,
        {
            if str_eq(self.entries[i].name.as_str(), name) {
                assert(self@[i as int].name == name@);
                return Some(i);
            }
            i = i + 1;
        }
        None
    }

    /// Whether the store holds a forward called `name`.
    pub fn contains(&self, name: &str) -> (found: bool)
        ensures
            self.wf(),
            found == self.has(name@),
            found == self.map().dom().contains(name@),
    {
        proof {
            lemma_by_name_domain(self@, name@);
        }
        self.position(name).is_some()
    }

    /// The forward called `name`, if the store holds one.
    pub fn get(&self, name: &str) -> (found: Option<&PortForward>)
        ensures
            self.wf(),
            found is Some <==> self.has(name@),
            found matches Some(f) ==> f@.name == name@ && self@.contains(f@) && self.map()[name@]
                == f@,
    {
        match self.position(name) {
            Some(i) => {
                proof {
                    lemma_by_name_value(self@, i as int);
                }
                Some(&self.entries[i])
            },
            None => None,
        }
    }

    /// Puts `forward` into the store, unless a forward of its name is there.
    /// Says whether it did.
    pub fn insert(&mut self, forward: PortForward) -> (added: bool)
        ensures
            final(self).wf(),
            added == !old(self).has(forward@.name),
            added ==> final(self)@ == old(self)@.push(forward@),
            added ==> final(self).map() == old(self).map().insert(forward@.name, forward@),
            !added ==> final(self)@ == old(self)@,
    {
        proof {
            use_type_invariant(&*self);
        }
        if self.position(forward.name.as_str()).is_some() {
            return false;
        }
        proof {
            let after = old(self)@.push(forward@);
            assert(records(old(self).entries@.push(forward)) =~= after);
            assert(after.drop_last() =~= old(self)@);
            assert forall|i: int, j: int|
                0 <= i < after.len() && 0 <= j < after.len() && i != j implies #[trigger] after[i].name
                != #[trigger] after[j].name by {
                if i < old(self)@.len() && j < old(self)@.len() {
                    assert(old(self)@[i].name != old(self)@[j].name);
                } else if i < old(self)@.len() {
                    assert(old(self)@[i].name != forward@.name);
                } else {
                    assert(old(self)@[j].name != forward@.name);
                }
            }
        }
        let mut entries: Vec<PortForward> = Vec::new();
        core::mem::swap(&mut entries, &mut self.entries);
        entries.push(forward);
        self.entries = entries;
        true
    }

    /// Takes the forward called `name` out of the store and hands it back.
    pub fn remove(&mut self, name: &str) -> (taken: Option<PortForward>)
        ensures
            final(self).wf(),
            taken is Some <==> old(self).has(name@),
            taken is None ==> final(self)@ == old(self)@,
            taken matches Some(f) ==> {
                &&& f@.name == name@
                &&& old(self).map()[name@] == f@
                &&& final(self).map() == old(self).map().remove(name@)
                &&& exists|i: int|
                    0 <= i < old(self)@.len() && old(self)@[i] == f@ && final(self)@ == old(
                        self,
                    )@.remove(i)
            },
    {
        proof {
            use_type_invariant(&*self);
        }
        match self.position(name) {
            Some(i) => {
                proof {
                    lemma_by_name_value(self@, i as int);
                    lemma_by_name_remove(self@, i as int);
                    assert(records(self.entries@.remove(i as int)) =~= self@.remove(i as int));
                }
                let mut entries: Vec<PortForward> = Vec::new();
                core::mem::swap(&mut entries, &mut self.entries);
                let f = entries.remove(i);
                self.entries = entries;
                assert(old(self)@[i as int] == f@);
                Some(f)
            },
            None => None,
        }
    }
}

/// The word that says whether a forward is in force.
pub fn status_label(active: bool) -> (label: &'static str)
    ensures
        label@ == if active {
            "ACTIVE"@
        } else {
            "INACTIVE"@
        },
{
    if active {
        "ACTIVE"
    } else {
        "INACTIVE"
    }
}

/// A forward in one phrase: the listening port, an arrow, and the address
/// and port that it leads to.
pub open spec fn summary_spec(f: ForwardRecord) -> Seq<char> {
    f.src_port + "->"@ + f.dest_ip + ":"@ + f.dest_port
}

pub fn forward_summary(forward: &PortForward) -> (text: String)
    ensures
        text@ == summary_spec(forward@),
{
    let mut text = joined(forward.src_port.as_str(), "->");
    text.append(forward.dest_ip.as_str());
    text.append(":");
    text.append(forward.dest_port.as_str());
    text
}

impl Clone for ForwardStore {
    /// A store that holds copies of the forwards of this one, in the same
    /// order: listing a store and loading the list gives the store again.
    fn clone(&self) -> (copy: ForwardStore)
        ensures
            copy@ == self@,
            copy.wf(),
    {
        proof {
            use_type_invariant(self);
        }
        let mut list: Vec<PortForward> = Vec::new();
        let mut i: usize = 0;
        assert(records(list@) =~= self@.subrange(0, 0));
        while i < self.entries.len()
            invariant
                i <= self.entries.len(),
                records(list@) == self@.subrange(0, i as int),
            decreases self.entries.len() - i,
        {
            let f = self.entries[i].clone();
            let ghost before = list@;
            list.push(f);
            assert(records(list@) =~= records(before).push(f@));
            assert(self@.subrange(0, i + 1) =~= self@.subrange(0, i as int).push(self@[i as int]));
            i = i + 1;
        }
        assert(self@.subrange(0, i as int) =~= self@);
        match ForwardStore::from_entries(list) {
            Some(copy) => copy,
            None => ForwardStore::new(),
        }
    }
}

} // verus!
