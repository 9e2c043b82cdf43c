//! A sliding window of decoded images around the index being viewed.
//!
//! The cache is a state machine over a map from index to [`ImageStatus`]. The
//! work that cannot be done here (decoding a file, starting a background task,
//! waiting for it) is handed in by the caller as closures, so every decision the
//! cache takes is verified for whatever those closures return.
use std::collections::BTreeMap;
use vstd::prelude::*;

verus! {

broadcast use vstd::std_specs::btree::group_btree_axioms;

/// What the cache holds for one index.
pub enum ImageStatus<T, H> {
    /// Decoded and ready to be shown.
    Loaded(T),
    /// A background decode is running; the handle is what to wait on.
    Loading(H),
}

/// Distance between two indices.
pub open spec fn distance(a: int, b: int) -> int {
    if a >= b {
        a - b
    } else {
        b - a
    }
}

/// Whether `k` lies in the window of `buffer_size` slots centered on `center`:
/// at most `buffer_size / 2` (floor division) away from it.
pub open spec fn in_window(k: int, center: int, buffer_size: int) -> bool {
    distance(k, center) <= buffer_size / 2
}

/// The indices kept by a sweep around `center`.
pub open spec fn window_set(center: int, buffer_size: int) -> Set<usize> {
    Set::new(|k: usize| in_window(k as int, center, buffer_size))
}

/// The entries left by an eviction sweep around `center`.
pub open spec fn swept<V>(m: Map<usize, V>, center: int, buffer_size: int) -> Map<usize, V> {
    m.restrict(window_set(center, buffer_size))
}

/// The entries after a prefetch of `index` that, if it starts a task, gets handle `h`.
pub open spec fn prefetched<T, H>(
    m: Map<usize, ImageStatus<T, H>>,
    center: int,
    buffer_size: int,
    index: usize,
    h: H,
) -> Map<usize, ImageStatus<T, H>> {
    if m.contains_key(index) {
        m
    } else {
        swept(m.insert(index, ImageStatus::Loading(h)), center, buffer_size)
    }
}

/// A fetched result, with the image taken out of its reference.
pub open spec fn owned<T, E>(r: Result<&T, E>) -> Result<T, E> {
    match r {
        Ok(t) => Ok(*t),
        Err(e) => Err(e),
    }
}

/// A bounded cache of decoded images around a current index.
///
/// `T` is a decoded image and `H` the handle of a background decode.
pub struct ImageBuffer<T, H> {
    buffer_size: usize,
    num_items: usize,
    current_index: usize,
    image_storage: BTreeMap<usize, ImageStatus<T, H>>,
}

impl<T, H> ImageBuffer<T, H> {
    /// Index to status, for every index the cache holds.
    pub closed spec fn entries(&self) -> Map<usize, ImageStatus<T, H>> {
        self.image_storage@
    }

    /// The center of the window: the index last fetched, or the start index.
    pub closed spec fn current(&self) -> int {
        self.current_index as int
    }

    /// The window's size in slots, clamped to the number of items.
    pub closed spec fn buffer_size(&self) -> int {
        self.buffer_size as int
    }

    /// How many indices there are.
    pub closed spec fn num_items(&self) -> int {
        self.num_items as int
    }

    /// The cache's invariant: a positive size no larger than the item count, and
    /// only valid indices held.
    pub closed spec fn wf(&self) -> bool {
        &&& 0 < self.buffer_size <= self.num_items
        &&& forall|k: usize| #[trigger] self.image_storage@.contains_key(k) ==> k < self.num_items
    }

    /// An empty cache centered on `start_index`, whose window size is `buffer_size`
    /// clamped to `num_items`.
    pub fn new(start_index: usize, buffer_size: usize, num_items: usize) -> (r: Self)
        requires
            buffer_size > 0,
            num_items > 0,
        ensures
            r.wf(),
            r.entries() == Map::<usize, ImageStatus<T, H>>::empty(),
            r.current() == start_index,
            r.num_items() == num_items,
            r.buffer_size() == if buffer_size <= num_items {
                buffer_size
            } else {
                num_items
            },
    {
        Self {
            current_index: start_index,
            buffer_size: if buffer_size <= num_items {
                buffer_size
            } else {
                num_items
            },
            num_items,
            image_storage: BTreeMap::new(),
        }
    }

    /// Whether `index` stays in the current window.
    fn keeps(&self, index: usize) -> (r: bool)
        ensures
            r == in_window(index as int, self.current(), self.buffer_size()),
    {
        let d = if index >= self.current_index {
            index - self.current_index
        } else {
            self.current_index - index
        };
        d <= self.buffer_size / 2
    }

    /// Drops every entry outside the window around the current index.
    fn update_buffer(&mut self)
        requires
            old(self).wf(),
        ensures
            final(self).wf(),
            final(self).current() == old(self).current(),
            final(self).buffer_size() == old(self).buffer_size(),
            final(self).num_items() == old(self).num_items(),
            final(self).entries() == swept(
                old(self).entries(),
                old(self).current(),
                old(self).buffer_size(),
            ),
    {
        let ghost start = self.image_storage@;
        let mut k: usize = 0;
        while k < self.num_items
            invariant
                self.wf(),
                k <= self.num_items,
                self.current_index == old(self).current_index,
                self.buffer_size == old(self).buffer_size,
                self.num_items == old(self).num_items,
                start == old(self).image_storage@,
                forall|j: usize| #[trigger]
                    self.image_storage@.contains_key(j) <==> (start.contains_key(j) && (j >= k
                        || in_window(j as int, self.current(), self.buffer_size()))),
                forall|j: usize|
                    #[trigger] self.image_storage@.contains_key(j) ==> self.image_storage@[j]
                        == start[j],
            decreases self.num_items - k,
        {
            if !self.keeps(k) {
                self.image_storage.remove(&k);
            }
            k = k + 1;
        }
        assert(self.image_storage@ =~= swept(start, self.current(), self.buffer_size()));
    }

    /// Starts a background decode of `index` unless the cache already holds it.
    ///
    /// `spawn` starts the task and returns its handle; it is called exactly when
    /// the result is `true`. The window is then swept around the unchanged
    /// current index, so a prefetch never moves the window.
    pub fn load_async<F: FnOnce() -> H>(&mut self, index: usize, spawn: F) -> (started: bool)
        requires
            old(self).wf(),
            index < old(self).num_items(),
            spawn.requires(()),
        ensures
            final(self).wf(),
            final(self).current() == old(self).current(),
            final(self).buffer_size() == old(self).buffer_size(),
            final(self).num_items() == old(self).num_items(),
            started == !old(self).entries().contains_key(index),
            !started ==> final(self).entries() == old(self).entries(),
            started ==> exists|h: H|
                #![trigger spawn.ensures((), h)]
                spawn.ensures((), h) && final(self).entries() == prefetched(
                    old(self).entries(),
                    old(self).current(),
                    old(self).buffer_size(),
                    index,
                    h,
                ),
    {
        if self.image_storage.contains_key(&index) {
            return false;
        }
        let handle = spawn();
        self.image_storage.insert(index, ImageStatus::Loading(handle));
        self.update_buffer();
        true
    }

    /// Makes `index` the current index and returns its decoded image.
    ///
    /// An index the cache does not hold is decoded by `load`; one still loading
    /// is waited for with `join`; one already decoded is returned as it is. On
    /// success the index is held as decoded; on failure it is not held at all,
    /// and the cache stays usable. Either way the window is then swept around
    /// `index`, which never evicts `index` itself.
    pub fn get_or_load<'a, E, L, J>(&'a mut self, index: usize, load: L, join: J) -> (r: Result<
        &'a T,
        E,
    >) where L: FnOnce() -> Result<T, E>, J: FnOnce(H) -> Result<T, E>
        requires
            old(self).wf(),
            index < old(self).num_items(),
            load.requires(()),
            forall|h: H| #[trigger] join.requires((h,)),
        ensures
            final(self).wf(),
            final(self).current() == index,
            final(self).buffer_size() == old(self).buffer_size(),
            final(self).num_items() == old(self).num_items(),
            match r {
                Ok(img) => final(self).entries().contains_key(index) && final(self).entries()[index]
                    == ImageStatus::<T, H>::Loaded(*img),
                Err(_) => !final(self).entries().contains_key(index),
            },
            final(self).entries().remove(index) == swept(
                old(self).entries().remove(index),
                index as int,
                old(self).buffer_size(),
            ),
            !old(self).entries().contains_key(index) ==> load.ensures((), owned(r)),
            old(self).entries().contains_key(index) ==> match old(self).entries()[index] {
                ImageStatus::Loading(h) => join.ensures((h,), owned(r)),
                ImageStatus::Loaded(t) => owned(r) == Ok::<T, E>(t),
            },
    {
        self.current_index = index;
        let got = match self.image_storage.remove(&index) {
            None => load(),
            Some(ImageStatus::Loading(h)) => join(h),
            Some(ImageStatus::Loaded(t)) => Ok(t),
        };
        let ghost before = self.image_storage@;
        match got {
            Ok(t) => {
                self.image_storage.insert(index, ImageStatus::Loaded(t));
                self.update_buffer();
                assert(self.image_storage@.remove(index) =~= swept(
                    before,
                    index as int,
                    self.buffer_size as int,
                ));
                match self.image_storage.get(&index) {
                    Some(ImageStatus::Loaded(img)) => Ok(img),
                    _ => vstd::pervasive::unreached(),
                }
            },
            Err(e) => {
                self.update_buffer();
                assert(self.image_storage@.remove(index) =~= swept(
                    before,
                    index as int,
                    self.buffer_size as int,
                ));
                Err(e)
            },
        }
    }

    /// Forgets `index`, whatever the window, so that a stale image is never shown
    /// again. A task still loading it runs on; its result is dropped with the handle.
    pub fn remove(&mut self, index: usize)
        requires
            old(self).wf(),
        ensures
            final(self).wf(),
            final(self).current() == old(self).current(),
            final(self).buffer_size() == old(self).buffer_size(),
            final(self).num_items() == old(self).num_items(),
            final(self).entries() == old(self).entries().remove(index),
    {
        self.image_storage.remove(&index);
    }

    /// Whether the cache holds `index`, loading or loaded.
    pub fn contains(&self, index: usize) -> (r: bool)
        ensures
            r == self.entries().contains_key(index),
    {
        self.image_storage.contains_key(&index)
    }

    /// Whether the cache holds `index` decoded.
    pub fn is_loaded(&self, index: usize) -> (r: bool)
        ensures
            r == (self.entries().contains_key(index) && self.entries()[index] is Loaded),
    {
        match self.image_storage.get(&index) {
            Some(ImageStatus::Loaded(_)) => true,
            _ => false,
        }
    }

    /// The center of the window.
    pub fn current_index(&self) -> (r: usize)
        ensures
            r == self.current(),
    {
        self.current_index
    }

    /// How many indices there are.
    pub fn item_count(&self) -> (r: usize)
        ensures
            r == self.num_items(),
    {
        self.num_items
    }

    /// The indices the cache holds, in increasing order.
    pub fn cached_indices(&self) -> (r: Vec<usize>)
        requires
            self.wf(),
        ensures
            forall|k: usize| self.entries().contains_key(k) <==> #[trigger] r@.contains(k),
            forall|i: int, j: int| 0 <= i < j < r@.len() ==> r@[i] < r@[j],
    {
        let mut r: Vec<usize> = Vec::new();
        let mut k: usize = 0;
        while k < self.num_items
            invariant
                self.wf(),
                k <= self.num_items,
                forall|j: usize| (self.entries().contains_key(j) && j < k) <==> #[trigger] r@.contains(j),
                forall|i: int, j: int| 0 <= i < j < r@.len() ==> r@[i] < r@[j],
                forall|i: int| 0 <= i < r@.len() ==> r@[i] < k,
            decreases self.num_items - k,
        {
            let ghost prev = r@;
            if self.image_storage.contains_key(&k) {
                r.push(k);
                assert(forall|j: usize| #[trigger] r@.contains(j) <==> (prev.contains(j) || j == k))
                    by {
                    assert forall|j: usize| prev.contains(j) implies #[trigger] r@.contains(j) by {
                        let i = choose|i: int| 0 <= i < prev.len() && prev[i] == j;
                        assert(r@[i] == j);
                    }
                    assert(r@[r@.len() - 1] == k);
                }
            }
            k = k + 1;
        }
        r
    }
}

/// After a fetch of `index`, the cache holds exactly the indices of the window
/// around `index` that it held before, together with `index` itself when the
/// fetch succeeded. So when every other index of that window was held before
/// (prefetched), the cache holds the whole window within `[0, num_items)`.
pub proof fn lemma_fetch_window<T, H>(
    before: Map<usize, ImageStatus<T, H>>,
    after: Map<usize, ImageStatus<T, H>>,
    index: usize,
    buffer_size: int,
    num_items: int,
    succeeded: bool,
)
    requires
        forall|k: usize| #[trigger] before.contains_key(k) ==> k < num_items,
        index < num_items,
        buffer_size > 0,
        after.remove(index) == swept(before.remove(index), index as int, buffer_size),
        after.contains_key(index) == succeeded,
    ensures
        forall|k: usize|
            #[trigger] after.contains_key(k) <==> ((k == index && succeeded) || (k != index
                && before.contains_key(k) && in_window(k as int, index as int, buffer_size))),
        succeeded && (forall|k: usize|
            k != index && k < num_items && in_window(k as int, index as int, buffer_size)
                ==> #[trigger] before.contains_key(k)) ==> forall|k: usize|
            #[trigger] after.contains_key(k) <==> (k < num_items && in_window(
                k as int,
                index as int,
                buffer_size,
            )),
{
    assert forall|k: usize| #[trigger] after.contains_key(k) <==> ((k == index && succeeded) || (
        k != index && before.contains_key(k) && in_window(k as int, index as int, buffer_size))) by {
        if k != index {
            assert(after.remove(index).contains_key(k) == after.contains_key(k));
        }
    }
    if succeeded && (forall|k: usize|
        k != index && k < num_items && in_window(k as int, index as int, buffer_size)
            ==> #[trigger] before.contains_key(k)) {
        assert forall|k: usize| #[trigger] after.contains_key(k) <==> (k < num_items && in_window(
            k as int,
            index as int,
            buffer_size,
        )) by {
            if k != index {
                assert(after.remove(index).contains_key(k) == after.contains_key(k));
            }
        }
    }
}

/// A second prefetch of an index in the current window, with no removal in
/// between, starts no task and changes nothing: the first one left the index held.
pub proof fn lemma_prefetch_once<T, H>(
    m: Map<usize, ImageStatus<T, H>>,
    center: int,
    buffer_size: int,
    index: usize,
    h1: H,
    h2: H,
)
    requires
        in_window(index as int, center, buffer_size),
    ensures
        prefetched(m, center, buffer_size, index, h1).contains_key(index),
        prefetched(prefetched(m, center, buffer_size, index, h1), center, buffer_size, index, h2)
            == prefetched(m, center, buffer_size, index, h1),
{
}

/// A sweep around `center` keeps the entry of `center` itself, unchanged.
pub proof fn lemma_sweep_keeps_center<V>(m: Map<usize, V>, center: usize, buffer_size: int)
    requires
        buffer_size >= 0,
        m.contains_key(center),
    ensures
        swept(m, center as int, buffer_size).contains_key(center),
        swept(m, center as int, buffer_size)[center] == m[center],
{
}

} // verus!
