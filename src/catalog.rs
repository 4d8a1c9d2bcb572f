use vstd::prelude::*;

use crate::answer_map::AnswerMap;
use crate::protocol::{CommandRequest, PromptInfo};
use crate::switches::{contains_text, holds};
use crate::text::same_text;
use crate::value::AnswerValue;

verus! {

/// A node of a catalog: a group of further entries, or an archetype to render
/// with answers that override the caller's. Each may switch on behaviours of
/// the archetype finally chosen.
#[derive(Debug)]
pub enum CatalogEntry {
    Group { description: String, switches: Vec<String>, entries: Vec<CatalogEntry> },
    Archetype { description: String, source: String, switches: Vec<String>, answers: AnswerMap },
}

/// Why a catalog led to no archetype.
#[derive(Debug, Clone, Copy, PartialEq, Eq, Structural)]
pub enum CatalogError {
    /// A menu needs a choice and none is left.
    NoChoice,
    /// A choice names no entry of its menu.
    UnknownEntry,
    /// A catalog or archetype that is already being rendered is entered again.
    CatalogCycle,
}

/// The archetype a walk through a catalog ends at, the switches gathered on
/// the way, and the answers to render it with.
pub struct Selection {
    pub source: String,
    pub switches: Vec<String>,
    pub answers: AnswerMap,
}

/// What a catalog menu does: take its only archetype, or ask which entry.
#[derive(Debug)]
pub enum MenuStep {
    Take(usize),
    Ask(CommandRequest),
}

pub open spec fn description_of(e: CatalogEntry) -> Seq<char> {
    match e {
        CatalogEntry::Group { description, .. } => description@,
        CatalogEntry::Archetype { description, .. } => description@,
    }
}

pub open spec fn texts(v: Seq<String>) -> Seq<Seq<char>> {
    v.map_values(|s: String| s@)
}

/// The position of the first entry described as `choice`.
pub open spec fn pick_from(entries: Seq<CatalogEntry>, choice: Seq<char>, k: int) -> Option<int>
    decreases entries.len() - k,
{
    if k < 0 || k >= entries.len() {
        None
    } else if description_of(entries[k]) == choice {
        Some(k)
    } else {
        pick_from(entries, choice, k + 1)
    }
}

/// A menu of one archetype needs no choice.
pub open spec fn single_leaf(entries: Seq<CatalogEntry>) -> bool {
    entries.len() == 1 && entries[0] is Archetype
}

/// Where a walk through the menu `entries` ends, each menu that needs a choice
/// taking the next of `choices`, with `acc` the switches gathered so far: the
/// archetype's source, all switches, and the archetype's answer overrides.
pub open spec fn walk(entries: Seq<CatalogEntry>, choices: Seq<Seq<char>>, acc: Seq<Seq<char>>) -> Result<
    (Seq<char>, Seq<Seq<char>>, Map<Seq<char>, AnswerValue>),
    CatalogError,
>
    decreases choices.len(),
{
    if single_leaf(entries) {
        match entries[0] {
            CatalogEntry::Archetype { source, switches, answers, .. } => Ok(
                (source@, acc + texts(switches@), answers@),
            ),
            _ => Err(CatalogError::UnknownEntry),
        }
    } else if choices.len() == 0 {
        Err(CatalogError::NoChoice)
    } else {
        match pick_from(entries, choices[0], 0) {
            None => Err(CatalogError::UnknownEntry),
            Some(i) => if 0 <= i < entries.len() {
                match entries[i] {
                    CatalogEntry::Archetype { source, switches, answers, .. } => Ok(
                        (source@, acc + texts(switches@), answers@),
                    ),
                    CatalogEntry::Group { switches, entries: sub, .. } => walk(
                        sub@,
                        choices.drop_first(),
                        acc + texts(switches@),
                    ),
                }
            } else {
                Err(CatalogError::UnknownEntry)
            },
        }
    }
}

fn find_entry(entries: &Vec<CatalogEntry>, choice: &str) -> (r: Option<usize>)
    ensures
        match r {
            Some(i) => pick_from(entries@, choice@, 0) == Some(i as int) && i < entries@.len(),
            None => pick_from(entries@, choice@, 0) is None,
        },
{
    let mut k: usize = 0;
    while k < entries.len()
        invariant
            k <= entries@.len(),
            pick_from(entries@, choice@, 0) == pick_from(entries@, choice@, k as int),
        decreases entries@.len() - k,
    {
        let d = match &entries[k] {
            CatalogEntry::Group { description, .. } => description,
            CatalogEntry::Archetype { description, .. } => description,
        };
        if same_text(d.as_str(), choice) {
            return Some(k);
        }
        k = k + 1;
    }
    None
}

fn append_copies(acc: &mut Vec<String>, more: &Vec<String>)
    ensures
        texts(final(acc)@) == texts(old(acc)@) + texts(more@),
{
    let ghost start = texts(acc@);
    let mut i: usize = 0;
    while i < more.len()
        invariant
            i <= more@.len(),
            texts(acc@) == start + texts(more@.subrange(0, i as int)),
        decreases more@.len() - i,
    {
        let ghost before = acc@;
        acc.push(more[i].clone());
        assert(acc@ =~= before.push(more@[i as int]));
        assert(texts(acc@) =~= texts(before).push(more@[i as int]@));
        assert(texts(more@.subrange(0, i + 1)) =~= texts(more@.subrange(0, i as int)).push(more@[i as int]@));
        assert(texts(acc@) =~= start + texts(more@.subrange(0, i + 1)));
        i = i + 1;
    }
    assert(more@.subrange(0, more@.len() as int) =~= more@);
}

fn is_archetype(e: &CatalogEntry) -> (r: bool)
    ensures
        r == (*e is Archetype),
{
    match e {
        CatalogEntry::Archetype { .. } => true,
        _ => false,
    }
}

/// The selection an archetype entry gives, with the switches gathered so far
/// and the caller's answers.
fn select(entry: CatalogEntry, acc: Vec<String>, answers: AnswerMap) -> (r: Result<Selection, CatalogError>)
    ensures
        match entry {
            CatalogEntry::Archetype { source, switches, answers: overrides, .. } => r matches Ok(s)
                && s.source@ == source@ && texts(s.switches@) == texts(acc@) + texts(switches@)
                && s.answers@ == answers@.union_prefer_right(overrides@),
            _ => r == Err::<Selection, CatalogError>(CatalogError::UnknownEntry),
        },
{
    match entry {
        CatalogEntry::Archetype { source, switches, answers: overrides, .. } => {
            let mut gathered = acc;
            append_copies(&mut gathered, &switches);
            let mut merged = answers;
            merged.extend(overrides);
            Ok(Selection { source, switches: gathered, answers: merged })
        },
        _ => Err(CatalogError::UnknownEntry),
    }
}

/// Walks a catalog from its top menu: a menu of a single archetype takes it,
/// every other menu takes the next choice. Ends at the archetype reached, with
/// the caller's switches followed by those of every entry passed on the way,
/// and with the caller's answers overridden by the archetype entry's.
pub fn navigate(entries: Vec<CatalogEntry>, choices: &Vec<String>, switches: &Vec<String>, answers: AnswerMap) -> (r: Result<Selection, CatalogError>)
    ensures
        match walk(entries@, texts(choices@), texts(switches@)) {
            Ok((source, gathered, overrides)) => r matches Ok(s) && s.source@ == source && texts(
                s.switches@,
            ) == gathered && s.answers@ == answers@.union_prefer_right(overrides),
            Err(e) => r == Err::<Selection, CatalogError>(e),
        },
{
    let ghost all = texts(choices@);
    let ghost top = entries@;
    let mut current = entries;
    let mut k: usize = 0;
    let mut acc: Vec<String> = Vec::new();
    append_copies(&mut acc, switches);
    assert(texts(acc@) =~= texts(switches@));
    assert(all.subrange(0, all.len() as int) =~= all);
    loop
        invariant
            k <= choices@.len(),
            all == texts(choices@),
            top == entries@,
            walk(top, all, texts(switches@)) == walk(current@, all.subrange(k as int, all.len() as int), texts(acc@)),
        decreases choices@.len() - k,
    {
        let ghost rest = all.subrange(k as int, all.len() as int);
        if current.len() == 1 && is_archetype(&current[0]) {
            let e = current.remove(0);
            return select(e, acc, answers);
        }
        if k == choices.len() {
            return Err(CatalogError::NoChoice);
        }
        assert(rest[0] == choices@[k as int]@);
        match find_entry(&current, choices[k].as_str()) {
            None => {
                return Err(CatalogError::UnknownEntry);
            },
            Some(i) => {
                let e = current.remove(i);
                if is_archetype(&e) {
                    return select(e, acc, answers);
                }
                match e {
                    CatalogEntry::Group { switches: more, entries: sub, .. } => {
                        append_copies(&mut acc, &more);
                        assert(rest.drop_first() =~= all.subrange(k + 1, all.len() as int));
                        current = sub;
                        k = k + 1;
                    },
                    CatalogEntry::Archetype { .. } => {
                        return Err(CatalogError::UnknownEntry);
                    },
                }
            },
        }
    }
}

/// The menu for `entries`: a single archetype is taken at once; otherwise the
/// user picks among the entries' descriptions, in their order.
pub fn menu(entries: &Vec<CatalogEntry>, message: &str) -> (r: MenuStep)
    ensures
        single_leaf(entries@) ==> r == MenuStep::Take(0),
        !single_leaf(entries@) ==> (r matches MenuStep::Ask(CommandRequest::PromptForSelect(info, options))
            && info.message@ == message@ && options@.len() == entries@.len() && forall|i: int|
            0 <= i < entries@.len() ==> (#[trigger] options@[i])@ == description_of(entries@[i])),
{
    if entries.len() == 1 {
        if let CatalogEntry::Archetype { .. } = &entries[0] {
            return MenuStep::Take(0);
        }
    }
    let mut options: Vec<String> = Vec::new();
    let mut i: usize = 0;
    while i < entries.len()
        invariant
            i <= entries@.len(),
            options@.len() == i,
            forall|j: int| 0 <= j < i ==> (#[trigger] options@[j])@ == description_of(entries@[j]),
        decreases entries@.len() - i,
    {
        let d = match &entries[i] {
            CatalogEntry::Group { description, .. } => description.clone(),
            CatalogEntry::Archetype { description, .. } => description.clone(),
        };
        options.push(d);
        i = i + 1;
    }
    let info = PromptInfo {
        message: message.to_owned(),
        key: None,
        optional: false,
        min: None,
        max: None,
        placeholder: None,
        help: None,
    };
    MenuStep::Ask(CommandRequest::PromptForSelect(info, options))
}

/// The sources being rendered, outermost first: a source that composes itself,
/// directly or through others, is caught when it is entered again.
#[derive(Debug)]
pub struct RenderStack {
    sources: Vec<String>,
}

impl View for RenderStack {
    type V = Seq<Seq<char>>;

    closed spec fn view(&self) -> Seq<Seq<char>> {
        texts(self.sources@)
    }
}

impl RenderStack {
    pub fn new() -> (r: RenderStack)
        ensures
            r@ == Seq::<Seq<char>>::empty(),
    {
        let r = RenderStack { sources: Vec::new() };
        assert(r@ =~= Seq::<Seq<char>>::empty());
        r
    }

    /// Enters `source`, or fails where it is already being rendered.
    pub fn enter(&mut self, source: &str) -> (r: Result<(), CatalogError>)
        ensures
            old(self)@.contains(source@) ==> r == Err::<(), CatalogError>(CatalogError::CatalogCycle)
                && final(self)@ == old(self)@,
            !old(self)@.contains(source@) ==> r is Ok && final(self)@ == old(self)@.push(source@),
    {
        let ghost before = self.sources@;
        let found = contains_text(&self.sources, source);
        proof {
            if holds(before, source@) {
                let i = choose|i: int| 0 <= i < before.len() && (#[trigger] before[i])@ == source@;
                assert(texts(before)[i] == source@);
            }
            if texts(before).contains(source@) {
                let i = choose|i: int| 0 <= i < texts(before).len() && texts(before)[i] == source@;
                assert(before[i]@ == source@);
            }
        }
        if found {
            return Err(CatalogError::CatalogCycle);
        }
        self.sources.push(source.to_owned());
        assert(texts(self.sources@) =~= texts(before).push(source@));
        Ok(())
    }

    /// Leaves the innermost source, once it is rendered.
    pub fn leave(&mut self)
        ensures
            old(self)@.len() > 0 ==> final(self)@ == old(self)@.drop_last(),
            old(self)@.len() == 0 ==> final(self)@ == old(self)@,
    {
        let ghost before = self.sources@;
        if self.sources.len() > 0 {
            self.sources.pop();
            assert(texts(self.sources@) =~= texts(before).drop_last());
        }
    }
}

} // verus!
