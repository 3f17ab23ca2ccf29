//! The webviews of the host: which exist, under which identifier, and where
//! on the screen each was last placed.
//!
//! The manager is a map from identifiers to webviews. It is kept as a list
//! in which no identifier occurs twice. The handle of a webview and the
//! window it lives in are values of types that the manager only carries.

use crate::host::{backend_script, delivery_script};
use crate::protocol::BackendMessage;
use vstd::prelude::*;
use vstd::string::StringExecFns;

verus! {

/// The script that a webview runs before its page: it gives the page the
/// function through which the host delivers messages and the function
/// through which the page sends them.
pub const INIT_SCRIPT: &'static str = "
window.__backendMessageHandler = null;

window.onBackendMessage = function(base64Data) {
    if (window.__backendMessageHandler) {
        window.__backendMessageHandler(base64Data);
    }
};

window.sendToBackend = function(base64Data) {
    window.ipc.postMessage(base64Data);
};
";

/// A rectangle on the screen: the horizontal and vertical position of its
/// corner, its width and its height, each held as the 64 bits of an IEEE 754
/// double.
#[derive(Clone, Copy, Debug, PartialEq, Eq, Structural)]
pub struct Bounds {
    pub x: u64,
    pub y: u64,
    pub width: u64,
    pub height: u64,
}

/// The 63 bits of a double without its sign.
pub open spec fn magnitude(bits: u64) -> int {
    bits as int % 0x8000_0000_0000_0000
}

/// Whether the bits are not a number: all exponent bits set and a fraction
/// that is not zero.
pub open spec fn is_nan(bits: u64) -> bool {
    magnitude(bits) > 0x7FF0_0000_0000_0000
}

/// Whether two doubles compare equal: neither is not a number, and they have
/// the same bits or are both zero, of whichever sign.
pub open spec fn equal_doubles(a: u64, b: u64) -> bool {
    !is_nan(a) && !is_nan(b) && (a == b || (magnitude(a) == 0 && magnitude(b) == 0))
}

/// Whether two doubles compare equal.
pub fn same_double(a: u64, b: u64) -> (same: bool)
    ensures
        same == equal_doubles(a, b),
{
    let a_magnitude = a % 0x8000_0000_0000_0000;
    let b_magnitude = b % 0x8000_0000_0000_0000;
    if a_magnitude > 0x7FF0_0000_0000_0000 || b_magnitude > 0x7FF0_0000_0000_0000 {
        false
    } else {
        a == b || (a_magnitude == 0 && b_magnitude == 0)
    }
}

impl Bounds {
    /// Whether two rectangles compare equal, number by number.
    pub open spec fn same(self, other: Bounds) -> bool {
        &&& equal_doubles(self.x, other.x)
        &&& equal_doubles(self.y, other.y)
        &&& equal_doubles(self.width, other.width)
        &&& equal_doubles(self.height, other.height)
    }

    /// Whether two rectangles compare equal, number by number.
    pub fn same_as(&self, other: &Bounds) -> (same: bool)
        ensures
            same == self.same(*other),
    {
        same_double(self.x, other.x) && same_double(self.y, other.y) && same_double(
            self.width,
            other.width,
        ) && same_double(self.height, other.height)
    }
}

/// A webview under its identifier, with the place it was last given.
pub struct Entry<W> {
    pub id: String,
    pub webview: W,
    pub bounds: Bounds,
}

/// A webview with the place it was last given.
pub struct Placed<W> {
    pub webview: W,
    pub bounds: Bounds,
}

/// The identifiers of the entries, in their order.
pub open spec fn ids_of<W>(entries: Seq<Entry<W>>) -> Seq<Seq<char>> {
    entries.map_values(|entry: Entry<W>| entry.id@)
}

/// What an entry maps its identifier to.
pub open spec fn placed<W>(entry: Entry<W>) -> Placed<W> {
    Placed { webview: entry.webview, bounds: entry.bounds }
}

/// The map that a list of entries stands for.
pub open spec fn mapping<W>(entries: Seq<Entry<W>>) -> Map<Seq<char>, Placed<W>> {
    Map::new(
        |id: Seq<char>| ids_of(entries).contains(id),
        |id: Seq<char>| placed(entries[ids_of(entries).index_of(id)]),
    )
}

/// The identifiers in a list of texts.
pub open spec fn id_set(ids: Seq<String>) -> Set<Seq<char>> {
    Set::new(|id: Seq<char>| exists|k: int| 0 <= k < ids.len() && (#[trigger] ids[k])@ == id)
}

/// Each entry of a list without repeated identifiers is what the map holds
/// under the entry's identifier.
pub proof fn lemma_mapping_at<W>(entries: Seq<Entry<W>>, index: int)
    requires
        ids_of(entries).no_duplicates(),
        0 <= index < entries.len(),
    ensures
        mapping(entries).contains_key(entries[index].id@),
        mapping(entries)[entries[index].id@] == placed(entries[index]),
{
    let ids = ids_of(entries);
    assert(ids[index] == entries[index].id@);
    let chosen = ids.index_of(entries[index].id@);
    assert(0 <= chosen < ids.len() && ids[chosen] == entries[index].id@);
}

/// A key of the map is the identifier of an entry.
pub proof fn lemma_mapping_key<W>(entries: Seq<Entry<W>>, id: Seq<char>) -> (index: int)
    requires
        mapping(entries).contains_key(id),
    ensures
        0 <= index < entries.len(),
        entries[index].id@ == id,
        ids_of(entries)[index] == id,
{
    assert(ids_of(entries).contains(id));
    let index = choose|k: int| 0 <= k < ids_of(entries).len() && ids_of(entries)[k] == id;
    index
}

/// An entry added under a new identifier adds that key to the map.
pub proof fn lemma_mapping_push<W>(entries: Seq<Entry<W>>, entry: Entry<W>)
    requires
        ids_of(entries).no_duplicates(),
        !ids_of(entries).contains(entry.id@),
    ensures
        ids_of(entries.push(entry)).no_duplicates(),
        mapping(entries.push(entry)) == mapping(entries).insert(entry.id@, placed(entry)),
{
    let after = entries.push(entry);
    assert(ids_of(after) =~= ids_of(entries).push(entry.id@));
    assert forall|id: Seq<char>| #[trigger]
        mapping(after).contains_key(id) == mapping(entries).insert(
            entry.id@,
            placed(entry),
        ).contains_key(id) by {
        if ids_of(after).contains(id) {
            let k = choose|k: int| 0 <= k < after.len() && ids_of(after)[k] == id;
            if k < entries.len() {
                assert(ids_of(entries)[k] == id);
            }
        }
        if ids_of(entries).contains(id) {
            let k = choose|k: int| 0 <= k < entries.len() && ids_of(entries)[k] == id;
            assert(ids_of(after)[k] == id);
        }
        if id == entry.id@ {
            assert(ids_of(after)[entries.len() as int] == id);
        }
    }
    assert forall|id: Seq<char>| mapping(after).contains_key(id) implies #[trigger] mapping(
        after,
    )[id] == mapping(entries).insert(entry.id@, placed(entry))[id] by {
        let k = lemma_mapping_key(after, id);
        lemma_mapping_at(after, k);
        if k < entries.len() {
            assert(ids_of(entries)[k] == id);
            lemma_mapping_at(entries, k);
        }
    }
    assert(mapping(after) =~= mapping(entries).insert(entry.id@, placed(entry)));
}

/// An entry replaced by one with the same identifier replaces the value
/// under that key.
pub proof fn lemma_mapping_update<W>(entries: Seq<Entry<W>>, index: int, entry: Entry<W>)
    requires
        ids_of(entries).no_duplicates(),
        0 <= index < entries.len(),
        entry.id@ == entries[index].id@,
    ensures
        ids_of(entries.update(index, entry)).no_duplicates(),
        mapping(entries.update(index, entry)) == mapping(entries).insert(
            entry.id@,
            placed(entry),
        ),
{
    let after = entries.update(index, entry);
    assert(ids_of(after) =~= ids_of(entries));
    assert forall|id: Seq<char>| mapping(after).contains_key(id) implies #[trigger] mapping(
        after,
    )[id] == mapping(entries).insert(entry.id@, placed(entry))[id] by {
        let k = lemma_mapping_key(after, id);
        lemma_mapping_at(after, k);
        lemma_mapping_at(entries, k);
        assert(ids_of(entries)[k] == id);
        assert(ids_of(entries)[index] == entry.id@);
        if k != index {
            assert(ids_of(entries)[k] != ids_of(entries)[index]);
        }
    }
    assert(ids_of(entries)[index] == entry.id@);
    assert(mapping(after) =~= mapping(entries).insert(entry.id@, placed(entry)));
}

/// An entry taken out takes its key out of the map.
pub proof fn lemma_mapping_remove<W>(entries: Seq<Entry<W>>, index: int)
    requires
        ids_of(entries).no_duplicates(),
        0 <= index < entries.len(),
    ensures
        ids_of(entries.remove(index)).no_duplicates(),
        mapping(entries.remove(index)) == mapping(entries).remove(entries[index].id@),
{
    let after = entries.remove(index);
    let gone = entries[index].id@;
    assert(ids_of(after) =~= ids_of(entries).remove(index));
    assert forall|i: int, j: int|
        0 <= i < after.len() && 0 <= j < after.len() && i != j implies ids_of(after)[i] != ids_of(
        after,
    )[j] by {
        let a = if i < index { i } else { i + 1 };
        let b = if j < index { j } else { j + 1 };
        assert(ids_of(entries)[a] != ids_of(entries)[b]);
    }
    assert forall|id: Seq<char>| #[trigger]
        mapping(after).contains_key(id) == mapping(entries).remove(gone).contains_key(id) by {
        if ids_of(after).contains(id) {
            let k = choose|k: int| 0 <= k < after.len() && ids_of(after)[k] == id;
            let a = if k < index { k } else { k + 1 };
            assert(ids_of(entries)[a] == id);
            assert(ids_of(entries)[index] == gone);
        }
        if ids_of(entries).contains(id) && id != gone {
            let k = choose|k: int| 0 <= k < entries.len() && ids_of(entries)[k] == id;
            assert(ids_of(entries)[index] == gone);
            let a = if k < index { k } else { k - 1 };
            assert(ids_of(after)[a] == id);
        }
    }
    assert forall|id: Seq<char>| mapping(after).contains_key(id) implies #[trigger] mapping(
        after,
    )[id] == mapping(entries).remove(gone)[id] by {
        let k = lemma_mapping_key(after, id);
        lemma_mapping_at(after, k);
        let a = if k < index { k } else { k + 1 };
        assert(ids_of(entries)[a] == id);
        lemma_mapping_at(entries, a);
    }
    assert(mapping(after) =~= mapping(entries).remove(gone));
}

/// Whether `id` is one of `ids`.
pub fn is_listed(ids: &Vec<String>, id: &String) -> (listed: bool)
    ensures
        listed == id_set(ids@).contains(id@),
{
    let mut index: usize = 0;
    while index < ids.len()
        invariant
            index <= ids@.len(),
            forall|k: int| 0 <= k < index ==> (#[trigger] ids@[k])@ != id@,
        decreases ids@.len() - index,
    {
        if ids[index] == *id {
            return true;
        }
        index = index + 1;
    }
    false
}

/// The webviews of the host and the window they live in.
pub struct WebviewManager<W, H> {
    entries: Vec<Entry<W>>,
    window: Option<H>,
}

impl<W, H> View for WebviewManager<W, H> {
    type V = Map<Seq<char>, Placed<W>>;

    closed spec fn view(&self) -> Map<Seq<char>, Placed<W>> {
        mapping(self.entries@)
    }
}

impl<W, H> WebviewManager<W, H> {
    /// Whether no identifier occurs twice in the list behind the map.
    pub closed spec fn wf(&self) -> bool {
        ids_of(self.entries@).no_duplicates()
    }

    /// The window in which webviews are built, once it is known.
    pub closed spec fn window(&self) -> Option<H> {
        self.window
    }

    /// The identifiers in the order in which the webviews are walked.
    pub closed spec fn order(&self) -> Seq<Seq<char>> {
        ids_of(self.entries@)
    }

    /// The walk visits every webview once: its identifiers are the keys of
    /// the map, none of them twice.
    pub proof fn lemma_order(&self)
        requires
            self.wf(),
        ensures
            self.order().no_duplicates(),
            self.order().to_set() == self@.dom(),
    {
        assert(self.order().to_set() =~= self@.dom());
    }

    /// A manager without webviews and without a window.
    pub fn new() -> (manager: Self)
        ensures
            manager.wf(),
            manager@ == Map::<Seq<char>, Placed<W>>::empty(),
            manager.window() is None,
    {
        let manager = WebviewManager { entries: Vec::new(), window: None };
        assert(manager@ =~= Map::<Seq<char>, Placed<W>>::empty());
        manager
    }

    /// Makes `window` the window in which webviews are built.
    pub fn set_window(&mut self, window: H)
        ensures
            final(self).window() == Some(window),
            final(self)@ == old(self)@,
            final(self).wf() == old(self).wf(),
            final(self).order() == old(self).order(),
    {
        self.window = Some(window);
    }

    fn position(&self, id: &str) -> (index: usize)
        ensures
            index <= self.entries@.len(),
            index < self.entries@.len() ==> self.entries@[index as int].id@ == id@,
            index == self.entries@.len() ==> !ids_of(self.entries@).contains(id@),
    {
        let wanted = String::from_str(id);
        let mut index: usize = 0;
        while index < self.entries.len()
            invariant
                index <= self.entries@.len(),
                wanted@ == id@,
                forall|k: int| 0 <= k < index ==> ids_of(self.entries@)[k] != id@,
            decreases self.entries@.len() - index,
        {
            if self.entries[index].id == wanted {
                return index;
            }
            index = index + 1;
        }
        index
    }

    /// Whether a webview exists under `id`.
    pub fn has_webview(&self, id: &str) -> (found: bool)
        ensures
            found == self@.contains_key(id@),
    {
        let index = self.position(id);
        proof {
            if index < self.entries@.len() {
                assert(ids_of(self.entries@)[index as int] == id@);
            }
        }
        index < self.entries.len()
    }

    /// The webview under `id`, if there is one.
    pub fn webview(&self, id: &str) -> (found: Option<&W>)
        requires
            self.wf(),
        ensures
            match found {
                Some(webview) => self@.contains_key(id@) && *webview == self@[id@].webview,
                None => !self@.contains_key(id@),
            },
    {
        let index = self.position(id);
        if index < self.entries.len() {
            proof {
                lemma_mapping_at(self.entries@, index as int);
            }
            Some(&self.entries[index].webview)
        } else {
            None
        }
    }

    /// The window on which a webview for `id` is to be built: the window
    /// that was set, unless a webview exists under `id` already.
    pub fn window_for(&self, id: &str) -> (window: Option<&H>)
        ensures
            match window {
                Some(window) => !self@.contains_key(id@) && self.window() == Some(*window),
                None => self@.contains_key(id@) || self.window() is None,
            },
    {
        if self.has_webview(id) {
            return None;
        }
        match &self.window {
            Some(window) => Some(window),
            None => None,
        }
    }

    /// Takes in a webview that was built for `id` at `bounds`, and says
    /// whether it was taken: a webview built for an identifier that is in
    /// use is let go of.
    pub fn create_webview(&mut self, id: String, webview: W, bounds: Bounds) -> (taken: bool)
        requires
            old(self).wf(),
        ensures
            final(self).wf(),
            final(self).window() == old(self).window(),
            taken == !old(self)@.contains_key(id@),
            final(self)@ == (if taken {
                old(self)@.insert(id@, Placed { webview, bounds })
            } else {
                old(self)@
            }),
    {
        if self.has_webview(id.as_str()) {
            return false;
        }
        let entry = Entry { id, webview, bounds };
        proof {
            lemma_mapping_push(self.entries@, entry);
        }
        self.entries.push(entry);
        true
    }

    /// Moves the webview under `id` to `bounds`: where they differ from the
    /// bounds it has, they are recorded and the webview is handed out to be
    /// moved; where they compare equal, or no webview is under `id`, nothing
    /// changes.
    pub fn update_position(&mut self, id: &str, bounds: Bounds) -> (moved: bool)
        requires
            old(self).wf(),
        ensures
            final(self).wf(),
            final(self).window() == old(self).window(),
            moved == (old(self)@.contains_key(id@) && !old(self)@[id@].bounds.same(bounds)),
            final(self)@ == (if moved {
                old(self)@.insert(id@, Placed { webview: old(self)@[id@].webview, bounds })
            } else {
                old(self)@
            }),
    {
        let index = self.position(id);
        if index >= self.entries.len() {
            return false;
        }
        proof {
            lemma_mapping_at(self.entries@, index as int);
        }
        if self.entries[index].bounds.same_as(&bounds) {
            return false;
        }
        let ghost before = self.entries@;
        let old_entry = self.entries.remove(index);
        let entry = Entry { id: old_entry.id, webview: old_entry.webview, bounds };
        self.entries.insert(index, entry);
        proof {
            assert(self.entries@ =~= before.update(index as int, entry));
            lemma_mapping_update(before, index as int, entry);
        }
        true
    }

    /// Lets go of every webview whose identifier is not among `active_ids`.
    pub fn retain_only(&mut self, active_ids: &Vec<String>)
        requires
            old(self).wf(),
        ensures
            final(self).wf(),
            final(self).window() == old(self).window(),
            final(self)@ == old(self)@.restrict(id_set(active_ids@)),
    {
        let ghost start = self@;
        let mut index: usize = 0;
        while index < self.entries.len()
            invariant
                index <= self.entries@.len(),
                self.wf(),
                self.window() == old(self).window(),
                start == old(self)@,
                forall|k: int|
                    0 <= k < index ==> id_set(active_ids@).contains(
                        #[trigger] ids_of(self.entries@)[k],
                    ),
                forall|id: Seq<char>| #[trigger]
                    self@.contains_key(id) ==> start.contains_key(id) && self@[id] == start[id],
                forall|id: Seq<char>|
                    start.contains_key(id) && !(#[trigger] self@.contains_key(id)) ==> !id_set(
                        active_ids@,
                    ).contains(id),
            decreases self.entries@.len() - index,
        {
            let ghost before = self.entries@;
            let ghost before_map = self@;
            if is_listed(active_ids, &self.entries[index].id) {
                assert(ids_of(before)[index as int] == before[index as int].id@);
                index = index + 1;
            } else {
                proof {
                    lemma_mapping_remove(before, index as int);
                }
                let _ = self.entries.remove(index);
                proof {
                    let gone = before[index as int].id@;
                    assert(self.entries@ == before.remove(index as int));
                    assert(before_map == mapping(before));
                    assert(self@ == before_map.remove(gone));
                    assert(ids_of(before)[index as int] == gone);
                    assert(!id_set(active_ids@).contains(gone));
                    assert forall|k: int| 0 <= k < index implies id_set(active_ids@).contains(
                        #[trigger] ids_of(self.entries@)[k],
                    ) by {
                        assert(ids_of(self.entries@)[k] == ids_of(before)[k]);
                    }
                    assert forall|id: Seq<char>| #[trigger]
                        self@.contains_key(id) implies start.contains_key(id) && self@[id]
                        == start[id] by {
                        assert(before_map.contains_key(id));
                        assert(self@[id] == before_map[id]);
                    }
                    assert forall|id: Seq<char>|
                        start.contains_key(id) && !(#[trigger] self@.contains_key(id))
                        implies !id_set(active_ids@).contains(id) by {
                        if before_map.contains_key(id) {
                            assert(id == gone);
                        }
                    }
                }
            }
        }
        proof {
            assert forall|id: Seq<char>| #[trigger]
                self@.contains_key(id) implies id_set(active_ids@).contains(id) by {
                let k = lemma_mapping_key(self.entries@, id);
                assert(id_set(active_ids@).contains(ids_of(self.entries@)[k]));
            }
            assert(self@ =~= start.restrict(id_set(active_ids@)));
        }
    }

    /// The number of webviews.
    pub fn len(&self) -> (n: usize)
        ensures
            n == self.order().len(),
    {
        self.entries.len()
    }

    /// The webview at a step of the walk.
    pub fn webview_at(&self, index: usize) -> (webview: &W)
        requires
            self.wf(),
            index < self.order().len(),
        ensures
            self@.contains_key(self.order()[index as int]),
            *webview == self@[self.order()[index as int]].webview,
    {
        proof {
            lemma_mapping_at(self.entries@, index as int);
        }
        &self.entries[index].webview
    }

    /// The webview under `id` and the script that delivers `message` to its
    /// page. There is nothing to do where no webview is under `id`.
    pub fn send_message(&self, id: &str, message: &BackendMessage) -> (delivery: Option<
        (&W, String),
    >)
        requires
            self.wf(),
        ensures
            match delivery {
                Some((webview, script)) => self@.contains_key(id@) && *webview
                    == self@[id@].webview && script@ == delivery_script(message.text()),
                None => !self@.contains_key(id@),
            },
    {
        match self.webview(id) {
            Some(webview) => match backend_script(message) {
                Some(script) => Some((webview, script)),
                None => None,
            },
            None => None,
        }
    }
}

} // verus!
