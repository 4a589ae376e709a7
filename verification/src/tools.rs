//! Tool calls: the index of a tool registry, which keeps its tool names in
//! the order of `str` with each name once, and the answer message of an
//! executed call.

use vstd::prelude::*;

use crate::chat::{ChatContent, ChatMessage, ChatRole, ToolCall};
use crate::error::{ClientError, Result};
use crate::json::{json_text, json_value_text};
use crate::text::{chars_of, str_eq};

verus! {

/// Whether `a` sorts before `b` as `str` values do: code point by code point,
/// with a proper prefix first.
pub open spec fn text_less(a: Seq<char>, b: Seq<char>) -> bool
    decreases a.len(),
{
    if a.len() == 0 {
        b.len() > 0
    } else if b.len() == 0 {
        false
    } else if a[0] != b[0] {
        (a[0] as int) < (b[0] as int)
    } else {
        text_less(a.drop_first(), b.drop_first())
    }
}

/// Of two texts, at most one sorts before the other; no text sorts before
/// itself.
pub proof fn lemma_text_less_asymmetric(a: Seq<char>, b: Seq<char>)
    ensures
        !(text_less(a, b) && text_less(b, a)),
    decreases a.len(),
{
    if a.len() > 0 && b.len() > 0 && a[0] == b[0] {
        lemma_text_less_asymmetric(a.drop_first(), b.drop_first());
    }
}

/// Of two different texts, one sorts before the other.
pub proof fn lemma_text_less_total(a: Seq<char>, b: Seq<char>)
    ensures
        a != b ==> text_less(a, b) || text_less(b, a),
    decreases a.len(),
{
    if a.len() == 0 && b.len() == 0 {
        assert(a =~= b);
    } else if a.len() > 0 && b.len() > 0 && a[0] == b[0] {
        lemma_text_less_total(a.drop_first(), b.drop_first());
        if a.drop_first() == b.drop_first() {
            assert(a.drop_first().len() == b.drop_first().len());
            assert(a.len() == b.len());
            assert forall|i: int| 0 <= i < a.len() implies a[i] == b[i] by {
                if i > 0 {
                    assert(a[i] == a.drop_first()[i - 1]);
                    assert(b[i] == b.drop_first()[i - 1]);
                }
            }
            assert(a =~= b);
        }
    } else if a.len() > 0 && b.len() > 0 {
        assert((a[0] as int) != (b[0] as int));
    }
}

/// Whether `a` sorts before `b`.
pub fn text_lt(a: &[char], b: &[char]) -> (r: bool)
    ensures
        r == text_less(a@, b@),
{
    let mut i: usize = 0;
    assert(a@.skip(0) =~= a@);
    assert(b@.skip(0) =~= b@);
    while i < a.len() && i < b.len()
        invariant
            i <= a@.len(),
            i <= b@.len(),
            text_less(a@, b@) == text_less(a@.skip(i as int), b@.skip(i as int)),
        decreases a@.len() - i,
    {
        if a[i] != b[i] {
            return a[i] < b[i];
        }
        assert(a@.skip(i as int).drop_first() =~= a@.skip(i + 1));
        assert(b@.skip(i as int).drop_first() =~= b@.skip(i + 1));
        i = i + 1;
    }
    i == a.len() && i < b.len()
}

/// The view of a list of names.
pub open spec fn names_view(v: Seq<String>) -> Seq<Seq<char>> {
    v.map_values(|s: String| s@)
}

/// Whether each name of `names` sorts before the next one, and no name comes
/// twice.
pub open spec fn names_sorted(names: Seq<Seq<char>>) -> bool {
    &&& forall|i: int, j: int|
        #![trigger names[i], names[j]]
        0 <= i && j == i + 1 && j < names.len() ==> text_less(names[i], names[j])
    &&& forall|i: int, j: int|
        #![trigger names[i], names[j]]
        0 <= i < j < names.len() ==> names[i] != names[j]
}

/// The names of the tools of a registry, each once and in the order of
/// `str`: the order in which a registry lists its tools. A registry keeps its
/// tools in slots that follow these names.
#[derive(Debug)]
pub struct ToolNames {
    names: Vec<String>,
}

impl View for ToolNames {
    type V = Seq<Seq<char>>;

    closed spec fn view(&self) -> Seq<Seq<char>> {
        names_view(self.names@)
    }
}

impl Clone for ToolNames {
    /// A copy with the same names.
    fn clone(&self) -> (r: ToolNames)
        ensures
            r@ == self@,
    {
        proof {
            use_type_invariant(self);
        }
        let mut names: Vec<String> = Vec::new();
        let mut i: usize = 0;
        while i < self.names.len()
            invariant
                i <= self.names@.len(),
                names_sorted(names_view(self.names@)),
                names_view(names@) == names_view(self.names@).take(i as int),
            decreases self.names@.len() - i,
        {
            let name = self.names[i].clone();
            let ghost prev = names@;
            names.push(name);
            assert(names@ =~= prev.push(self.names@[i as int]));
            assert(names_view(names@) =~= names_view(prev).push(self.names@[i as int]@));
            assert(names_view(self.names@).take(i + 1) =~= names_view(self.names@).take(i as int).push(
                self.names@[i as int]@,
            ));
            i = i + 1;
        }
        assert(names_view(self.names@).take(i as int) =~= names_view(self.names@));
        ToolNames { names }
    }
}

impl ToolNames {
    #[verifier::type_invariant]
    spec fn inv(self) -> bool {
        names_sorted(names_view(self.names@))
    }

    /// No name yet.
    pub fn new() -> (r: ToolNames)
        ensures
            r@ == Seq::<Seq<char>>::empty(),
            names_sorted(r@),
    {
        let r = ToolNames { names: Vec::new() };
        assert(r@ =~= Seq::<Seq<char>>::empty());
        r
    }

    /// How many names there are.
    pub fn len(&self) -> (r: usize)
        ensures
            r == self@.len(),
    {
        self.names.len()
    }

    /// The name in slot `i`.
    pub fn name(&self, i: usize) -> (r: &str)
        requires
            i < self@.len(),
        ensures
            r@ == self@[i as int],
    {
        self.names[i].as_str()
    }

    /// The slot of `name`, if it is registered.
    pub fn position(&self, name: &str) -> (r: Option<usize>)
        ensures
            names_sorted(self@),
            match r {
                Some(i) => i < self@.len() && self@[i as int] == name@,
                None => !self@.contains(name@),
            },
    {
        proof {
            use_type_invariant(self);
        }
        let mut i: usize = 0;
        while i < self.names.len()
            invariant
                i <= self@.len(),
                self@.len() == self.names@.len(),
                names_sorted(self@),
                forall|k: int| 0 <= k < i ==> self@[k] != name@,
            decreases self@.len() - i,
        {
            if str_eq(self.names[i].as_str(), name) {
                return Some(i);
            }
            i = i + 1;
        }
        None
    }

    /// The slot of the tool that a call of `name` runs; `UnknownTool` with
    /// that name when no tool of that name is registered.
    pub fn find(&self, name: &str) -> (r: Result<usize>)
        ensures
            self@.contains(name@) <==> r is Ok,
            r matches Ok(i) ==> i < self@.len() && self@[i as int] == name@,
            r is Err ==> (r matches Err(ClientError::UnknownTool(n)) && n@ == name@),
    {
        match self.position(name) {
            Some(i) => Ok(i),
            None => Err(ClientError::UnknownTool(name.to_owned())),
        }
    }

    /// Registers `name`: its slot, and whether the name is new. A name that
    /// is registered keeps its slot and nothing changes; a new one goes in
    /// at its place in the order.
    pub fn insert(&mut self, name: &str) -> (r: (usize, bool))
        ensures
            names_sorted(final(self)@),
            r.0 < final(self)@.len(),
            final(self)@[r.0 as int] == name@,
            old(self)@.contains(name@) ==> !r.1 && final(self)@ == old(self)@,
            !old(self)@.contains(name@) ==> r.1 && r.0 <= old(self)@.len() && final(self)@ == old(self)@.insert(
                r.0 as int,
                name@,
            ),
    {
        if let Some(i) = self.position(name) {
            return (i, false);
        }
        proof {
            use_type_invariant(&*self);
        }
        let ghost before = self@;
        let key = chars_of(name);
        let n = self.names.len();
        let mut p: usize = 0;
        let mut done = false;
        while !done && p < n
            invariant
                n == before.len(),
                self@ == before,
                key@ == name@,
                p <= n,
                forall|k: int| 0 <= k < p ==> !text_less(name@, #[trigger] before[k]),
                done ==> p < n && text_less(name@, before[p as int]),
            decreases n - p + (if done {
                0int
            } else {
                1int
            }),
        {
            let other = chars_of(self.names[p].as_str());
            if text_lt(key.as_slice(), other.as_slice()) {
                done = true;
            } else {
                p = p + 1;
            }
        }
        let mut names: Vec<String> = Vec::new();
        std::mem::swap(&mut names, &mut self.names);
        assert(names_view(names@) == before);
        names.insert(p, name.to_owned());
        let ghost after = names_view(names@);
        proof {
            assert(after =~= before.insert(p as int, name@));
            assert forall|i: int, j: int|
                #![trigger after[i], after[j]]
                0 <= i && j == i + 1 && j < after.len() implies text_less(after[i], after[j]) by {
                if j < p {
                    assert(after[i] == before[i] && after[j] == before[j]);
                } else if j == p {
                    assert(after[i] == before[i]);
                    assert(!text_less(name@, before[i]));
                    assert(before[i] != name@);
                    lemma_text_less_total(before[i], name@);
                } else if i == p {
                    assert(after[j] == before[p as int]);
                } else {
                    assert(after[i] == before[i - 1] && after[j] == before[j - 1]);
                }
            }
            assert forall|i: int, j: int|
                #![trigger after[i], after[j]]
                0 <= i < j < after.len() implies after[i] != after[j] by {
                if i == p {
                    assert(after[j] == before[j - 1]);
                } else if j == p {
                    assert(after[i] == before[i]);
                } else if i < p && j < p {
                    assert(after[i] == before[i] && after[j] == before[j]);
                } else if i < p {
                    assert(after[i] == before[i] && after[j] == before[j - 1]);
                } else {
                    assert(after[i] == before[i - 1] && after[j] == before[j - 1]);
                }
            }
        }
        self.names = names;
        (p, true)
    }
}

/// The item registered under `name` among `names` and `items`, if any.
pub open spec fn item_for<T>(names: Seq<Seq<char>>, items: Seq<T>, name: Seq<char>) -> Option<T> {
    if names.contains(name) {
        Some(items[names.index_of(name)])
    } else {
        None
    }
}

/// The tools of a registry: one item per name, the one registered last
/// under it, kept in the order of the names (the order of `str`).
pub struct ToolSlots<T> {
    names: ToolNames,
    items: Vec<T>,
}

impl<T: Clone> Clone for ToolSlots<T> {
    /// A copy with the same names and, for each, a clone of its item.
    fn clone(&self) -> (r: ToolSlots<T>)
        ensures
            r.names() == self.names(),
            r.items().len() == self.items().len(),
            forall|i: int| 0 <= i < self.items().len() ==> cloned::<T>(self.items()[i], r.items()[i]),
    {
        proof {
            use_type_invariant(self);
        }
        ToolSlots { names: self.names.clone(), items: self.items.clone() }
    }
}

impl<T> ToolSlots<T> {
    #[verifier::type_invariant]
    spec fn inv(self) -> bool {
        self.names@.len() == self.items@.len()
    }

    /// The names, in order.
    pub closed spec fn names(&self) -> Seq<Seq<char>> {
        self.names@
    }

    /// The items, in the order of their names.
    pub closed spec fn items(&self) -> Seq<T> {
        self.items@
    }

    /// No tool yet.
    pub fn new() -> (r: ToolSlots<T>)
        ensures
            r.names() == Seq::<Seq<char>>::empty(),
            r.items() == Seq::<T>::empty(),
    {
        let r = ToolSlots { names: ToolNames::new(), items: Vec::new() };
        assert(r.items() =~= Seq::<T>::empty());
        r
    }

    /// How many tools there are.
    pub fn len(&self) -> (r: usize)
        ensures
            r == self.names().len(),
            r == self.items().len(),
    {
        proof {
            use_type_invariant(self);
        }
        self.names.len()
    }

    /// The names, each once and in order.
    pub fn names_index(&self) -> (r: &ToolNames)
        ensures
            r@ == self.names(),
            names_sorted(r@),
    {
        proof {
            use_type_invariant(&self.names);
        }
        &self.names
    }

    /// The items, in the order of their names.
    pub fn items_in_order(&self) -> (r: &[T])
        ensures
            r@ == self.items(),
    {
        self.items.as_slice()
    }

    /// Registers `item` under `name`: it replaces the item of that name, or
    /// goes in at the place of the name in the order. Whether the name is
    /// new comes back.
    pub fn insert(&mut self, name: &str, item: T) -> (fresh: bool)
        ensures
            names_sorted(final(self).names()),
            final(self).names().len() == final(self).items().len(),
            fresh == !old(self).names().contains(name@),
            !fresh ==> final(self).names() == old(self).names() && exists|slot: int|
                0 <= slot < old(self).names().len() && old(self).names()[slot] == name@
                    && final(self).items() == old(self).items().update(slot, item),
            fresh ==> exists|slot: int|
                0 <= slot <= old(self).names().len() && final(self).names() == old(self).names().insert(
                    slot,
                    name@,
                ) && final(self).items() == old(self).items().insert(slot, item),
            item_for(final(self).names(), final(self).items(), name@) == Some(item),
            forall|other: Seq<char>|
                other != name@ ==> item_for(final(self).names(), final(self).items(), other)
                    == item_for(old(self).names(), old(self).items(), other),
    {
        proof {
            use_type_invariant(&*self);
            use_type_invariant(&self.names);
        }
        let ghost old_names = self.names@;
        let ghost old_items = self.items@;
        let mut whole = ToolSlots { names: ToolNames::new(), items: Vec::new() };
        std::mem::swap(&mut whole, self);
        proof {
            use_type_invariant(&whole);
        }
        let ToolSlots { mut names, mut items } = whole;
        assert(names@ == old_names);
        assert(items@ == old_items);
        let (slot, fresh) = names.insert(name);
        proof {
            use_type_invariant(&names);
        }
        if fresh {
            items.insert(slot, item);
        } else {
            items.set(slot, item);
        }
        proof {
            let new_names = names@;
            let new_items = items@;
            assert(new_names.len() == new_items.len());
            lemma_index_of_unique(new_names, slot as int);
            assert forall|other: Seq<char>| other != name@ implies item_for(new_names, new_items, other)
                == item_for(old_names, old_items, other) by {
                if old_names.contains(other) {
                    let k = old_names.index_of(other);
                    lemma_index_of_unique(old_names, k);
                    let k2 = if fresh && k >= slot {
                        k + 1
                    } else {
                        k
                    };
                    assert(new_names[k2] == other);
                    lemma_index_of_unique(new_names, k2);
                }
                if new_names.contains(other) {
                    let j = new_names.index_of(other);
                    let j2 = if fresh && j > slot {
                        j - 1
                    } else {
                        j
                    };
                    assert(old_names[j2] == other);
                }
            }
        }
        *self = ToolSlots { names, items };
        fresh
    }

    /// The item registered under `name`, if any.
    pub fn get(&self, name: &str) -> (r: Option<&T>)
        ensures
            match r {
                Some(x) => item_for(self.names(), self.items(), name@) == Some(*x),
                None => item_for(self.names(), self.items(), name@) is None,
            },
    {
        proof {
            use_type_invariant(self);
            use_type_invariant(&self.names);
        }
        match self.names.position(name) {
            Some(i) => {
                proof {
                    lemma_index_of_unique(self.names@, i as int);
                }
                Some(&self.items[i])
            },
            None => None,
        }
    }

    /// The item that a call of `name` runs; `UnknownTool` with that name
    /// when no item of that name is registered.
    pub fn find(&self, name: &str) -> (r: Result<&T>)
        ensures
            match r {
                Ok(x) => item_for(self.names(), self.items(), name@) == Some(*x),
                Err(e) => item_for(self.names(), self.items(), name@) is None && (e matches ClientError::UnknownTool(n) && n@ == name@),
            },
    {
        match self.get(name) {
            Some(x) => Ok(x),
            None => Err(ClientError::UnknownTool(name.to_owned())),
        }
    }
}

/// In a list of distinct names, the name at `i` is found at `i`.
pub proof fn lemma_index_of_unique(names: Seq<Seq<char>>, i: int)
    requires
        names_sorted(names),
        0 <= i < names.len(),
    ensures
        names.contains(names[i]),
        names.index_of(names[i]) == i,
{
    assert(names.contains(names[i]));
    let k = names.index_of(names[i]);
    assert(names[k] == names[i]);
    if k < i {
        assert(names[k] != names[i]);
    } else if k > i {
        assert(names[i] != names[k]);
    }
}

/// What the call of a tool produced: the call it answers, the tool's name
/// and its JSON output.
#[derive(Debug, Clone, PartialEq)]
pub struct ToolExecution {
    pub tool_call_id: String,
    pub name: String,
    pub output: serde_json::Value,
}

impl ToolExecution {
    /// The execution of `call` whose tool gave `output`: it answers the call
    /// by its id and carries the name of the tool that was called.
    pub fn from_call(call: &ToolCall, output: serde_json::Value) -> (r: ToolExecution)
        ensures
            r.tool_call_id@ == call.id@,
            r.name@ == call.function.name@,
            r.output == output,
    {
        ToolExecution {
            tool_call_id: call.id.clone(),
            name: call.function.name.clone(),
            output,
        }
    }

    /// What a call comes to once its tool has run: the execution of the
    /// call when the tool gave an output, and the tool's error unchanged when
    /// it failed.
    pub fn from_result(call: &ToolCall, result: Result<serde_json::Value>) -> (r: Result<ToolExecution>)
        ensures
            match result {
                Ok(v) => r matches Ok(x) && x.tool_call_id@ == call.id@ && x.name@
                    == call.function.name@ && x.output == v,
                Err(e) => r == Err::<ToolExecution, ClientError>(e),
            },
    {
        match result {
            Ok(v) => Ok(ToolExecution::from_call(call, v)),
            Err(e) => Err(e),
        }
    }

    /// The tool message that hands the output back to the model: it answers
    /// the call, and its text is the output written as JSON.
    pub fn message(&self) -> (r: ChatMessage)
        ensures
            r.role == ChatRole::Tool,
            r.content matches ChatContent::Text(t) && t@ == json_text(self.output),
            r.tool_call_id matches Some(id) && id@ == self.tool_call_id@,
            r.tool_calls.is_none(),
    {
        let text = json_value_text(&self.output);
        ChatMessage::tool(self.tool_call_id.as_str(), text.as_str())
    }
}

} // verus!
