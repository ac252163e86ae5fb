//! Tags attached to a dispatched command, by which its completion is routed
//! back to the stage that issued it.

use vstd::prelude::*;

verus! {

/// The tags of one dispatched command: key and value pairs, in the order in
/// which the host lists them.
#[derive(Clone, Debug, PartialEq, Eq)]
pub struct StageContext {
    pub entries: Vec<(String, String)>,
}

impl View for StageContext {
    type V = Seq<(Seq<char>, Seq<char>)>;

    open spec fn view(&self) -> Seq<(Seq<char>, Seq<char>)> {
        self.entries.deep_view()
    }
}

/// The stages whose completion drives the workflow.
#[derive(Clone, Copy, Debug, PartialEq, Eq, Structural)]
pub enum Stage {
    DetectRoot,
    CreateCopy,
}

/// The value that the first entry under `key` holds, if there is one.
pub open spec fn lookup(entries: Seq<(Seq<char>, Seq<char>)>, key: Seq<char>) -> Option<Seq<char>>
    decreases entries.len(),
{
    if entries.len() == 0 {
        None
    } else if entries.first().0 == key {
        Some(entries.first().1)
    } else {
        lookup(entries.drop_first(), key)
    }
}

/// The entries after `key` has been set to `value`: the first entry that
/// carries the key takes the new value in place, and where there is none a
/// new entry is added at the end.
pub open spec fn inserted(
    entries: Seq<(Seq<char>, Seq<char>)>,
    key: Seq<char>,
    value: Seq<char>,
) -> Seq<(Seq<char>, Seq<char>)>
    decreases entries.len(),
{
    if entries.len() == 0 {
        seq![(key, value)]
    } else if entries.first().0 == key {
        seq![(key, value)] + entries.drop_first()
    } else {
        seq![entries.first()] + inserted(entries.drop_first(), key, value)
    }
}

/// No key occurs in two entries.
pub open spec fn distinct_keys(entries: Seq<(Seq<char>, Seq<char>)>) -> bool {
    forall|i: int, j: int|
        0 <= i < j < entries.len() ==> (#[trigger] entries[i]).0 != (#[trigger] entries[j]).0
}

/// The key under which a command carries its stage.
pub open spec fn stage_key() -> Seq<char> {
    "stage"@
}

/// The key under which a command that drives no transition says what it is
/// for.
pub open spec fn purpose_key() -> Seq<char> {
    "purpose"@
}

/// The tag value of a stage.
pub open spec fn stage_name(stage: Stage) -> Seq<char> {
    match stage {
        Stage::DetectRoot => "detect_root"@,
        Stage::CreateCopy => "create_copy"@,
    }
}

/// The stage that a tag value names, if any.
pub open spec fn stage_named(value: Seq<char>) -> Option<Stage> {
    if value == stage_name(Stage::DetectRoot) {
        Some(Stage::DetectRoot)
    } else if value == stage_name(Stage::CreateCopy) {
        Some(Stage::CreateCopy)
    } else {
        None
    }
}

/// The stage that a set of tags routes to: the one its `stage` entry names.
/// Tags without that entry, or with an unknown value under it, route nowhere.
pub open spec fn stage_of(entries: Seq<(Seq<char>, Seq<char>)>) -> Option<Stage> {
    match lookup(entries, stage_key()) {
        Some(value) => stage_named(value),
        None => None,
    }
}

/// The tags of a command issued for `stage`.
pub open spec fn stage_tags(stage: Stage) -> Seq<(Seq<char>, Seq<char>)> {
    seq![(stage_key(), stage_name(stage))]
}

/// The tags of the pane that runs the agent.
pub open spec fn launch_tags() -> Seq<(Seq<char>, Seq<char>)> {
    seq![(purpose_key(), "launch_agent"@)]
}

impl StageContext {
    /// Whether the tags form a mapping: no key occurs twice.
    pub open spec fn wf(&self) -> bool {
        distinct_keys(self@)
    }

    /// No tags.
    pub fn new() -> (r: StageContext)
        ensures
            r@ == Seq::<(Seq<char>, Seq<char>)>::empty(),
            r.wf(),
    {
        let r = StageContext { entries: Vec::new() };
        assert(r@ =~= Seq::<(Seq<char>, Seq<char>)>::empty());
        r
    }

    /// Sets `key` to `value`, replacing the value that the key had.
    pub fn insert(&mut self, key: &str, value: &str)
        ensures
            final(self)@ == inserted(old(self)@, key@, value@),
            old(self).wf() ==> final(self).wf(),
    {
        let ghost before = self@;
        let wanted = String::from_str(key);
        let mut i: usize = 0;
        assert(before.take(0) + inserted(before.skip(0), key@, value@) =~= inserted(
            before,
            key@,
            value@,
        )) by {
            assert(before.skip(0) =~= before);
        }
        while i < self.entries.len()
            invariant
                i <= self.entries.len(),
                self@ == before,
                before == old(self)@,
                wanted@ == key@,
                inserted(before, key@, value@) == before.take(i as int) + inserted(
                    before.skip(i as int),
                    key@,
                    value@,
                ),
            decreases self.entries.len() - i,
        {
            let ghost rest = before.skip(i as int);
            assert(rest.first() == before[i as int]);
            assert(rest.drop_first() =~= before.skip(i + 1));
            assert(before[i as int].0 == self.entries@[i as int].0@);
            if self.entries[i].0 == wanted {
                assert(inserted(rest, key@, value@) == seq![(key@, value@)] + rest.drop_first());
                self.entries[i] = (wanted, String::from_str(value));
                assert(self@ =~= before.take(i as int) + (seq![(key@, value@)] + before.skip(
                    i + 1,
                )));
                proof {
                    inserted_is_a_mapping(before, key@, value@);
                }
                return ;
            }
            assert(inserted(rest, key@, value@) == seq![rest.first()] + inserted(
                rest.drop_first(),
                key@,
                value@,
            ));
            assert(before.take(i as int) + (seq![rest.first()] + inserted(
                before.skip(i + 1),
                key@,
                value@,
            )) =~= before.take(i + 1) + inserted(before.skip(i + 1), key@, value@));
            i = i + 1;
        }
        assert(before.skip(i as int).len() == 0);
        self.entries.push((wanted, String::from_str(value)));
        assert(self@ =~= before.take(i as int) + seq![(key@, value@)]);
        proof {
            inserted_is_a_mapping(before, key@, value@);
        }
    }

    /// Tags holding the single entry that sets `key` to `value`.
    pub fn tagged(key: &str, value: &str) -> (r: StageContext)
        ensures
            r@ == seq![(key@, value@)],
            r.wf(),
    {
        let mut r = StageContext::new();
        r.insert(key, value);
        r
    }

    /// The tags of a command issued for `stage`.
    pub fn for_stage(stage: Stage) -> (r: StageContext)
        ensures
            r@ == stage_tags(stage),
    {
        match stage {
            Stage::DetectRoot => StageContext::tagged("stage", "detect_root"),
            Stage::CreateCopy => StageContext::tagged("stage", "create_copy"),
        }
    }

    /// The tags of the pane that runs the agent.
    pub fn for_launch() -> (r: StageContext)
        ensures
            r@ == launch_tags(),
    {
        StageContext::tagged("purpose", "launch_agent")
    }

    /// Looks `key` up: the value of the first entry that carries it.
    pub fn get(&self, key: &str) -> (r: Option<String>)
        ensures
            r.deep_view() == lookup(self@, key@),
    {
        let wanted = String::from_str(key);
        let mut i: usize = 0;
        assert(self@.skip(0) =~= self@);
        while i < self.entries.len()
            invariant
                i <= self.entries.len(),
                wanted@ == key@,
                lookup(self@, key@) == lookup(self@.skip(i as int), key@),
            decreases self.entries.len() - i,
        {
            let ghost rest = self@.skip(i as int);
            assert(rest.first() == self@[i as int]);
            assert(rest.drop_first() =~= self@.skip(i + 1));
            if self.entries[i].0 == wanted {
                return Some(self.entries[i].1.clone());
            }
            i = i + 1;
        }
        None
    }

    /// The stage that these tags route to, if any.
    pub fn stage(&self) -> (r: Option<Stage>)
        ensures
            r == stage_of(self@),
    {
        match self.get("stage") {
            Some(value) => {
                if value == String::from_str("detect_root") {
                    Some(Stage::DetectRoot)
                } else if value == String::from_str("create_copy") {
                    Some(Stage::CreateCopy)
                } else {
                    None
                }
            },
            None => None,
        }
    }
}

/// Setting a key keeps every entry's key in its place: either the key was
/// there, and only that entry's value changes, or it was not, and one entry
/// is added at the end.
pub proof fn inserted_keeps_the_keys(
    entries: Seq<(Seq<char>, Seq<char>)>,
    key: Seq<char>,
    value: Seq<char>,
)
    ensures
        lookup(entries, key) is Some ==> inserted(entries, key, value).len() == entries.len(),
        lookup(entries, key) is None ==> inserted(entries, key, value) == entries.push(
            (key, value),
        ),
        lookup(entries, key) is None ==> forall|j: int|
            0 <= j < entries.len() ==> (#[trigger] entries[j]).0 != key,
        inserted(entries, key, value).len() >= entries.len(),
        forall|j: int|
            0 <= j < entries.len() ==> (#[trigger] inserted(entries, key, value)[j]).0
                == entries[j].0,
    decreases entries.len(),
{
    if entries.len() == 0 {
        assert(inserted(entries, key, value) =~= entries.push((key, value)));
    } else if entries.first().0 == key {
    } else {
        let rest = entries.drop_first();
        inserted_keeps_the_keys(rest, key, value);
        let done = inserted(entries, key, value);
        assert forall|j: int| 0 <= j < entries.len() implies (#[trigger] done[j]).0
            == entries[j].0 by {
            if j > 0 {
                assert(done[j] == inserted(rest, key, value)[j - 1]);
                assert(entries[j] == rest[j - 1]);
            }
        }
        if lookup(entries, key) is None {
            assert(done =~= entries.push((key, value)));
            assert forall|j: int| 0 <= j < entries.len() implies (#[trigger] entries[j]).0
                != key by {
                if j > 0 {
                    assert(entries[j] == rest[j - 1]);
                }
            }
        }
    }
}

/// Setting a key behaves as it does on a mapping: the key then holds the new
/// value, every other key holds what it held, and tags in which no key
/// occurred twice stay so.
pub proof fn inserted_is_a_mapping(
    entries: Seq<(Seq<char>, Seq<char>)>,
    key: Seq<char>,
    value: Seq<char>,
)
    ensures
        lookup(inserted(entries, key, value), key) == Some(value),
        forall|other: Seq<char>|
            other != key ==> #[trigger] lookup(inserted(entries, key, value), other) == lookup(
                entries,
                other,
            ),
        distinct_keys(entries) ==> distinct_keys(inserted(entries, key, value)),
    decreases entries.len(),
{
    let done = inserted(entries, key, value);
    if entries.len() == 0 {
        assert(done.drop_first() =~= entries);
    } else if entries.first().0 == key {
        assert(done.drop_first() =~= entries.drop_first());
    } else {
        inserted_is_a_mapping(entries.drop_first(), key, value);
        assert(done.drop_first() =~= inserted(entries.drop_first(), key, value));
    }
    assert(done.len() > 0);
    assert forall|other: Seq<char>| other != key implies #[trigger] lookup(done, other) == lookup(
        entries,
        other,
    ) by {
        if entries.len() == 0 {
            assert(lookup(done.drop_first(), other) is None);
        }
    }
    inserted_keeps_the_keys(entries, key, value);
    if distinct_keys(entries) {
        assert forall|i: int, j: int| 0 <= i < j < done.len() implies (#[trigger] done[i]).0 != (
        #[trigger] done[j]).0 by {
            if j < entries.len() {
                assert(done[i].0 == entries[i].0);
                assert(done[j].0 == entries[j].0);
            } else {
                assert(done[i].0 == entries[i].0);
            }
        }
    }
}

/// Tags that carry no `stage` entry route nowhere: a command tagged only
/// with its purpose never drives the workflow.
pub proof fn launch_tags_route_nowhere()
    ensures
        stage_of(launch_tags()) is None,
{
    reveal_strlit("stage");
    reveal_strlit("purpose");
    assert(stage_key().len() == 5);
    assert(purpose_key().len() == 7);
    assert(launch_tags().drop_first().len() == 0);
    reveal_with_fuel(lookup, 3);
}

/// A command issued for a stage routes back to that stage.
pub proof fn stage_tags_route_back(stage: Stage)
    ensures
        stage_of(stage_tags(stage)) == Some(stage),
{
    reveal_strlit("detect_root");
    reveal_strlit("create_copy");
    assert(stage_name(Stage::DetectRoot).len() == 11);
    assert(stage_name(Stage::CreateCopy).len() == 11);
    assert(stage_name(Stage::DetectRoot)[0] == 'd');
    assert(stage_name(Stage::CreateCopy)[0] == 'c');
}

/// The tags that the workflow attaches to what it issues are mappings.
pub proof fn issued_tags_are_mappings(stage: Stage)
    ensures
        distinct_keys(stage_tags(stage)),
        distinct_keys(launch_tags()),
{
}

/// In tags that form a mapping no entry is shadowed: each one is found under
/// its own key.
pub proof fn every_entry_is_found(entries: Seq<(Seq<char>, Seq<char>)>, i: int)
    requires
        distinct_keys(entries),
        0 <= i < entries.len(),
    ensures
        lookup(entries, entries[i].0) == Some(entries[i].1),
    decreases entries.len(),
{
    if i > 0 {
        let rest = entries.drop_first();
        assert(entries[0].0 != entries[i].0);
        assert forall|a: int, b: int| 0 <= a < b < rest.len() implies (#[trigger] rest[a]).0 != (
        #[trigger] rest[b]).0 by {
            assert(rest[a] == entries[a + 1]);
            assert(rest[b] == entries[b + 1]);
        }
        assert(rest[i - 1] == entries[i]);
        every_entry_is_found(rest, i - 1);
    }
}

} // verus!
