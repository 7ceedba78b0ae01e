//! The sequencer: owns the traversal order over a remote photo collection
//! and hands out the next photo's bytes, hiding reinitialization and the
//! skip-on-missing self-healing.

use vstd::prelude::*;

use crate::cli::{Order, SourceSize};

verus! {

/// Sort key understood by the remote collection.
#[derive(Clone, Copy, Debug, PartialEq, Eq, Structural)]
pub enum SortBy {
    TakenTime,
    FileName,
}

impl From<Order> for SortBy {
    /// Random is not an option remotely: randomization happens client-side,
    /// so the sort key is irrelevant and defaults to shooting time.
    fn from(value: Order) -> (r: SortBy) {
        match value {
            Order::ByDate => SortBy::TakenTime,
            Order::Random => SortBy::TakenTime,
            Order::ByName => SortBy::FileName,
        }
    }
}

impl vstd::std_specs::convert::FromSpecImpl<Order> for SortBy {
    open spec fn obeys_from_spec() -> bool {
        true
    }

    open spec fn from_spec(value: Order) -> SortBy {
        match value {
            Order::ByDate => SortBy::TakenTime,
            Order::Random => SortBy::TakenTime,
            Order::ByName => SortBy::FileName,
        }
    }
}

/// The error a slideshow surfaces to its caller. A missing photo index is
/// not an error: it is healed internally by reinitializing.
#[derive(Debug, Clone)]
pub enum SlideshowError {
    Other(String),
}

impl SlideshowError {
    /// The error's description, in place of a `Display` rendering.
    pub fn message(&self) -> (r: String)
        ensures
            match self {
                SlideshowError::Other(m) => r == m,
            },
    {
        match self {
            SlideshowError::Other(m) => m.clone(),
        }
    }
}

impl From<String> for SlideshowError {
    fn from(value: String) -> (r: SlideshowError) {
        SlideshowError::Other(value)
    }
}

impl vstd::std_specs::convert::FromSpecImpl<String> for SlideshowError {
    open spec fn obeys_from_spec() -> bool {
        true
    }

    open spec fn from_spec(value: String) -> SlideshowError {
        SlideshowError::Other(value)
    }
}

/// How a photo fetch can fail. `NotFound` must be distinguishable from
/// every other error, because only it triggers the self-healing retry.
#[derive(Debug, Clone)]
pub enum FetchError {
    /// The index no longer exists in the collection.
    NotFound,
    /// Any other failure, carrying its message.
    Other(String),
}

/// The remote photo collection: a live item count, and a photo's raw bytes
/// by index. Implementations live outside the library (a network client in
/// the application, stubs in tests).
pub trait PhotoSource {
    /// How many photos the collection currently holds.
    fn item_count(&mut self) -> Result<u32, String>;

    /// The raw bytes of the photo at `photo_index`.
    fn fetch(&mut self, photo_index: u32) -> Result<Vec<u8>, FetchError>;
}

/// How many consecutive missing-photo self-heals are attempted before the
/// slideshow reports the collection as unusable. Each retry means the
/// remote album shrank between reading its count and fetching a photo; a
/// collection that keeps vanishing this many times in a row is treated as
/// broken rather than retried forever.
pub const MISSING_PHOTO_RETRY_LIMIT: u32 = 100;

/// The indices `count - 1, count - 2, ..., skip`, in that order: one full
/// pass over the collection in reverse, so that popping from the end serves
/// `skip` first and walks forward.
pub open spec fn descending_from(count: u32, skip: u32) -> Seq<u32> {
    Seq::new((count - skip) as nat, |i: int| (count - 1 - i) as u32)
}

/// The indices `0, 1, ..., count - 1` in order.
pub open spec fn forward_range(count: u32) -> Seq<u32> {
    Seq::new(count as nat, |i: int| i as u32)
}

/// A freshly built ordered pass is strictly descending, ends at the start
/// offset — so the first photo served, popped from the end, is that
/// offset: index zero for a pass without random start — and holds every
/// index from the offset to the end of the collection exactly once.
pub proof fn lemma_ordered_pass_descends_to_start(count: u32, skip: u32)
    requires
        skip < count,
    ensures
        descending_from(count, skip).len() == count - skip,
        forall|i: int, j: int|
            0 <= i < j < count - skip ==> descending_from(count, skip)[i] > descending_from(
                count,
                skip,
            )[j],
        descending_from(count, skip).first() == count - 1,
        descending_from(count, skip).last() == skip,
        forall|k: u32| skip <= k < count ==> #[trigger] descending_from(count, skip).contains(k),
{
    assert forall|k: u32| skip <= k < count implies #[trigger] descending_from(
        count,
        skip,
    ).contains(k) by {
        assert(descending_from(count, skip)[count - 1 - k] == k);
    }
}

/// The remaining sequence of `after` is a freshly built pass with its last
/// index popped and served: a descending pass from some live count — whose
/// start offset is zero unless the one-shot random-start flag was still
/// set and the injected sampler drew it — or the injected shuffle of the
/// full forward range, shortened by one.
pub open spec fn popped_fresh_pass<R: Fn(u32) -> u32, S: Fn(Vec<u32>) -> Vec<u32>>(
    rand_gen_range: R,
    rand_shuffle: S,
    before: Slideshow,
    after: Slideshow,
) -> bool {
    match before.order {
        Order::ByDate | Order::ByName => exists|item_count: u32, k: u32|
            1 <= item_count && k < item_count && (k == 0 || (before.random_start && call_ensures(
                rand_gen_range,
                (item_count,),
                k,
            ))) && after.photo_display_sequence@ == #[trigger] descending_from(
                item_count,
                k,
            ).drop_last(),
        Order::Random => exists|item_count: u32, fwd: Vec<u32>, shuffled: Vec<u32>|
            #![trigger call_ensures(rand_shuffle, (fwd,), shuffled), forward_range(item_count)]
            1 <= item_count && fwd@ == forward_range(item_count) && call_ensures(
                rand_shuffle,
                (fwd,),
                shuffled,
            ) && after.photo_display_sequence@ == shuffled@.drop_last(),
    }
}

/// Holds the slideshow state and queries the photo source to fetch photos.
#[derive(Debug)]
pub struct Slideshow {
    /// Address of the FTP server.
    pub server: String,
    /// Folder path on the server.
    pub folder: String,
    /// User for FTP access.
    pub user: Option<String>,
    /// Password for FTP access.
    pub password: Option<String>,
    /// Indices of photos still to show, in reverse order, so the next one
    /// pops off the end without shifting the rest.
    pub photo_display_sequence: Vec<u32>,
    /// Traversal order over the collection.
    pub order: Order,
    /// Start the very first pass at a random position; consumed by the
    /// first initialization.
    pub random_start: bool,
    /// Requested source photo size.
    pub source_size: SourceSize,
}

impl Slideshow {
    /// The connection and ordering configuration; everything except the
    /// remaining display sequence and the one-shot random-start flag.
    pub open spec fn same_config(self, other: Slideshow) -> bool {
        &&& self.server == other.server
        &&& self.folder == other.folder
        &&& self.user == other.user
        &&& self.password == other.password
        &&& self.order == other.order
        &&& self.source_size == other.source_size
    }

    /// A fresh slideshow over the given server, folder and user: ordered by
    /// date, no password, no random start, large source photos, and no pass
    /// in progress.
    pub fn build(server: String, folder: String, user: Option<String>) -> (r: Result<
        Slideshow,
        String,
    >)
        ensures
            ({
                &&& r is Ok
                &&& r->Ok_0.server == server
                &&& r->Ok_0.folder == folder
                &&& r->Ok_0.user == user
                &&& r->Ok_0.password is None
                &&& r->Ok_0.photo_display_sequence@.len() == 0
                &&& r->Ok_0.order == Order::ByDate
                &&& r->Ok_0.random_start == false
                &&& r->Ok_0.source_size == SourceSize::L
            }),
    {
        Ok(
            Slideshow {
                server,
                folder,
                user,
                password: None,
                photo_display_sequence: Vec::new(),
                order: Order::ByDate,
                random_start: false,
                source_size: SourceSize::L,
            },
        )
    }

    pub fn with_password(self, password: Option<String>) -> (r: Self)
        ensures
            r.password == password,
            r.server == self.server,
            r.folder == self.folder,
            r.user == self.user,
            r.photo_display_sequence == self.photo_display_sequence,
            r.order == self.order,
            r.random_start == self.random_start,
            r.source_size == self.source_size,
    {
        Slideshow { password, ..self }
    }

    pub fn with_ordering(self, order: Order) -> (r: Self)
        ensures
            r.order == order,
            r.server == self.server,
            r.folder == self.folder,
            r.user == self.user,
            r.password == self.password,
            r.photo_display_sequence == self.photo_display_sequence,
            r.random_start == self.random_start,
            r.source_size == self.source_size,
    {
        Slideshow { order, ..self }
    }

    pub fn with_random_start(self, random_start: bool) -> (r: Self)
        ensures
            r.random_start == random_start,
            r.server == self.server,
            r.folder == self.folder,
            r.user == self.user,
            r.password == self.password,
            r.photo_display_sequence == self.photo_display_sequence,
            r.order == self.order,
            r.source_size == self.source_size,
    {
        Slideshow { random_start, ..self }
    }

    pub fn with_source_size(self, size: SourceSize) -> (r: Self)
        ensures
            r.source_size == size,
            r.server == self.server,
            r.folder == self.folder,
            r.user == self.user,
            r.password == self.password,
            r.photo_display_sequence == self.photo_display_sequence,
            r.order == self.order,
            r.random_start == self.random_start,
    {
        Slideshow { source_size: size, ..self }
    }

    /// The current pass is exhausted.
    pub fn slideshow_ended(&self) -> (r: bool)
        ensures
            r == (self.photo_display_sequence@.len() == 0),
    {
        self.photo_display_sequence.is_empty()
    }

    /// Builds a fresh pass over a collection of `item_count` photos
    /// according to the configured order.
    ///
    /// By date or by name the pass is the whole collection in reverse, so
    /// photos are served starting at index zero; when the one-shot
    /// random-start flag is set, the pass instead starts at an offset drawn
    /// by `rand_gen_range` (which must return a value below its argument),
    /// and the flag is consumed. In random order the pass is the shuffle,
    /// by `rand_shuffle` (which must keep the length), of the full forward
    /// range.
    ///
    /// An empty collection is an error and changes nothing.
    pub fn initialize<R: Fn(u32) -> u32, S: Fn(Vec<u32>) -> Vec<u32>>(
        &mut self,
        item_count: u32,
        rand_gen_range: &R,
        rand_shuffle: &S,
    ) -> (r: Result<(), String>)
        requires
            old(self).photo_display_sequence@.len() == 0,
            forall|c: u32| call_requires(*rand_gen_range, (c,)),
            forall|v: Vec<u32>| call_requires(*rand_shuffle, (v,)),
            forall|c: u32, k: u32| 1 <= c && call_ensures(*rand_gen_range, (c,), k) ==> k < c,
            forall|v: Vec<u32>, out: Vec<u32>|
                call_ensures(*rand_shuffle, (v,), out) ==> out@.len() == v@.len(),
        ensures
            final(self).same_config(*old(self)),
            r is Err <==> item_count == 0,
            item_count == 0 ==> *final(self) == *old(self),
            item_count >= 1 ==> final(self).photo_display_sequence@.len() >= 1,
            item_count >= 1 ==> match old(self).order {
                Order::ByDate | Order::ByName => {
                    if old(self).random_start {
                        &&& final(self).random_start == false
                        &&& exists|k: u32|
                            k < item_count && call_ensures(*rand_gen_range, (item_count,), k)
                                && final(self).photo_display_sequence@ == descending_from(
                                item_count,
                                k,
                            )
                    } else {
                        &&& final(self).random_start == old(self).random_start
                        &&& final(self).photo_display_sequence@ == descending_from(item_count, 0)
                    }
                },
                Order::Random => {
                    &&& final(self).random_start == old(self).random_start
                    &&& final(self).photo_display_sequence@.len() == item_count
                    &&& exists|fwd: Vec<u32>|
                        fwd@ == forward_range(item_count) && call_ensures(
                            *rand_shuffle,
                            (fwd,),
                            final(self).photo_display_sequence,
                        )
                },
            },
    {
        if item_count < 1 {
            return Err("Album is empty".to_owned());
        }
        match self.order {
            Order::ByDate | Order::ByName => {
                let skip: u32 = if self.random_start {
                    /* Random start is only used when the slideshow starts;
                    afterwards it continues in normal order. */
                    self.random_start = false;
                    rand_gen_range(item_count)
                } else {
                    0
                };
                proof {
                    if old(self).random_start {
                        assert(call_ensures(*rand_gen_range, (item_count,), skip));
                        assert(skip < item_count);
                    }
                }
                let mut i: u32 = item_count;
                while i > skip
                    invariant
                        skip <= i <= item_count,
                        self.photo_display_sequence@ == Seq::new(
                            (item_count - i) as nat,
                            |j: int| (item_count - 1 - j) as u32,
                        ),
                        self.same_config(*old(self)),
                        self.random_start == false,
                        old(self).random_start ==> skip < item_count && call_ensures(
                            *rand_gen_range,
                            (item_count,),
                            skip,
                        ),
                        old(self).random_start == false ==> skip == 0,
                    decreases i,
                {
                    i = i - 1;
                    self.photo_display_sequence.push(i);
                }
                proof {
                    assert(self.photo_display_sequence@ =~= descending_from(item_count, skip));
                }
            },
            Order::Random => {
                let mut fwd: Vec<u32> = Vec::new();
                let mut i: u32 = 0;
                while i < item_count
                    invariant
                        0 <= i <= item_count,
                        fwd@ == Seq::new(i as nat, |j: int| j as u32),
                        self == old(self),
                    decreases item_count - i,
                {
                    fwd.push(i);
                    i = i + 1;
                }
                proof {
                    assert(fwd@ =~= forward_range(item_count));
                }
                let ghost fwd_snapshot = fwd;
                let shuffled = rand_shuffle(fwd);
                self.photo_display_sequence = shuffled;
                proof {
                    assert(fwd_snapshot@ == forward_range(item_count) && call_ensures(
                        *rand_shuffle,
                        (fwd_snapshot,),
                        self.photo_display_sequence,
                    ));
                }
            },
        }
        Ok(())
    }

    /// Pops the next photo index off the end of the pass.
    pub fn pop_next_index(&mut self) -> (idx: u32)
        requires
            old(self).photo_display_sequence@.len() >= 1,
        ensures
            idx == old(self).photo_display_sequence@.last(),
            final(self).photo_display_sequence@ == old(self).photo_display_sequence@.drop_last(),
            final(self).same_config(*old(self)),
            final(self).random_start == old(self).random_start,
    {
        self.photo_display_sequence.pop().unwrap()
    }

    /// A fetched index no longer exists in the collection: drop the rest of
    /// this pass, so that the next request reinitializes from a fresh
    /// count. No error escapes to the caller.
    pub fn handle_missing_photo(&mut self)
        ensures
            final(self).photo_display_sequence@.len() == 0,
            final(self).same_config(*old(self)),
            final(self).random_start == old(self).random_start,
    {
        self.photo_display_sequence.clear();
    }

    /// Serves the next photo's bytes: reinitializes an exhausted pass from
    /// the source's live count, pops the next index and fetches it. A
    /// `NotFound` fetch means the collection shrank since the count was
    /// read: the pass is cleared and the whole cycle retried silently, up
    /// to [`MISSING_PHOTO_RETRY_LIMIT`] times in a row. Any other failure
    /// propagates as [`SlideshowError::Other`].
    pub fn get_next_photo<P: PhotoSource, R: Fn(u32) -> u32, S: Fn(Vec<u32>) -> Vec<u32>>(
        &mut self,
        source: &mut P,
        rand_gen_range: &R,
        rand_shuffle: &S,
    ) -> (r: Result<Vec<u8>, SlideshowError>)
        requires
            forall|c: u32| call_requires(*rand_gen_range, (c,)),
            forall|v: Vec<u32>| call_requires(*rand_shuffle, (v,)),
            forall|c: u32, k: u32| 1 <= c && call_ensures(*rand_gen_range, (c,), k) ==> k < c,
            forall|v: Vec<u32>, out: Vec<u32>|
                call_ensures(*rand_shuffle, (v,), out) ==> out@.len() == v@.len(),
        ensures
            final(self).same_config(*old(self)),
            final(self).random_start ==> old(self).random_start,
            r is Ok ==> ({
                ||| old(self).photo_display_sequence@.len() >= 1
                    && final(self).photo_display_sequence@
                    == old(self).photo_display_sequence@.drop_last()
                ||| popped_fresh_pass(*rand_gen_range, *rand_shuffle, *old(self), *final(self))
            }),
    {
        let mut retries_left: u32 = MISSING_PHOTO_RETRY_LIMIT;
        loop
            invariant
                self.same_config(*old(self)),
                self.random_start ==> old(self).random_start,
                *self == *old(self) || self.photo_display_sequence@.len() == 0,
                forall|c: u32| call_requires(*rand_gen_range, (c,)),
                forall|v: Vec<u32>| call_requires(*rand_shuffle, (v,)),
                forall|c: u32, k: u32| 1 <= c && call_ensures(*rand_gen_range, (c,), k) ==> k < c,
                forall|v: Vec<u32>, out: Vec<u32>|
                    call_ensures(*rand_shuffle, (v,), out) ==> out@.len() == v@.len(),
            decreases retries_left,
        {
            let ghost head_state = *self;
            let ghost mut live_count: u32 = 0;
            if self.slideshow_ended() {
                let item_count = match source.item_count() {
                    Ok(c) => c,
                    Err(e) => {
                        return Err(SlideshowError::Other(e));
                    },
                };
                match self.initialize(item_count, rand_gen_range, rand_shuffle) {
                    Ok(()) => (),
                    Err(e) => {
                        return Err(SlideshowError::Other(e));
                    },
                }
                proof {
                    live_count = item_count;
                }
            }
            let ghost pre_pop = *self;
            let photo_index = self.pop_next_index();
            match source.fetch(photo_index) {
                Ok(photo_bytes) => {
                    proof {
                        if head_state.photo_display_sequence@.len() == 0 {
                            /* The pass served from was built by this
                            iteration's initialization. */
                            let before = *old(self);
                            match before.order {
                                Order::ByDate | Order::ByName => {
                                    if head_state.random_start {
                                        let k = choose|k: u32|
                                            k < live_count && call_ensures(
                                                *rand_gen_range,
                                                (live_count,),
                                                k,
                                            ) && pre_pop.photo_display_sequence@
                                                == descending_from(live_count, k);
                                        assert(self.photo_display_sequence@ == descending_from(
                                            live_count,
                                            k,
                                        ).drop_last());
                                    } else {
                                        assert(self.photo_display_sequence@ == descending_from(
                                            live_count,
                                            0,
                                        ).drop_last());
                                    }
                                },
                                Order::Random => {
                                    let fwd = choose|fwd: Vec<u32>|
                                        fwd@ == forward_range(live_count) && call_ensures(
                                            *rand_shuffle,
                                            (fwd,),
                                            pre_pop.photo_display_sequence,
                                        );
                                    assert(call_ensures(
                                        *rand_shuffle,
                                        (fwd,),
                                        pre_pop.photo_display_sequence,
                                    ));
                                    assert(self.photo_display_sequence@
                                        == pre_pop.photo_display_sequence@.drop_last());
                                },
                            }
                            assert(popped_fresh_pass(
                                *rand_gen_range,
                                *rand_shuffle,
                                before,
                                *self,
                            ));
                        }
                    }
                    return Ok(photo_bytes);
                },
                Err(FetchError::NotFound) => {
                    /* Photos were removed from the album since its count was
                    read: reinitialize and retry. */
                    self.handle_missing_photo();
                    if retries_left == 0 {
                        return Err(
                            SlideshowError::Other(
                                "The album keeps changing while photos are fetched".to_owned(),
                            ),
                        );
                    }
                    retries_left = retries_left - 1;
                },
                Err(FetchError::Other(e)) => {
                    return Err(SlideshowError::Other(e));
                },
            }
        }
    }
}

} // verus!
