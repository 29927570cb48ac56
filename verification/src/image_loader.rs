//! Cache of background image decodes.
//!
//! The daemon decodes background images off the main thread, one worker per
//! unique file path.  [`ImageLoader`] owns the bookkeeping: which paths have
//! a decode in flight, which already hold a decoded buffer, and which
//! requesters (monitor surfaces, by name) are waiting on each path.  The
//! worker threads themselves live outside this crate; the main loop reports
//! what it observed of a worker through [`TaskPoll`] and learns from the
//! returned [`ImageLoaderStatus`] whether the buffer is ready, still being
//! decoded, or lost to a failure.

use vstd::prelude::*;
use vstd::hash_map::StringHashMap;
use vstd::pervasive::unreached;

verus! {

/// A decoded, renderer-ready pixel buffer: RGBA bytes in row-major order.
pub struct DecodedImage {
    pub width: u32,
    pub height: u32,
    pub pixels: Vec<u8>,
}

/// Two buffers hold the same picture.
pub open spec fn same_image(a: DecodedImage, b: DecodedImage) -> bool {
    &&& a.width == b.width
    &&& a.height == b.height
    &&& a.pixels@ == b.pixels@
}

/// One cache entry, keyed by file path.
///
/// While the decode is in flight, `task_running` is set and `data` is empty;
/// once the main loop has joined a successful decode, `data` holds the buffer
/// and `task_running` is cleared.  `requesters` names the surfaces waiting on
/// this path; an entry never stays in the cache with no requesters.
pub struct Image {
    pub data: Option<DecodedImage>,
    pub task_running: bool,
    pub requesters: Vec<String>,
}

/// What `background_load` tells its caller about the requested path.
pub enum ImageLoaderStatus {
    /// The decoded buffer, ready for the renderer.
    Loaded(DecodedImage),
    /// The decode has not finished yet; poll again later.
    Waiting,
    /// The decode failed or its worker panicked; the entry was purged and a
    /// new request for the path starts over.
    Error,
}

/// What the main loop observed of the decode worker for a path at the moment
/// of the poll.
pub enum TaskPoll {
    /// The worker has not finished (or no worker was running for the path).
    Running,
    /// The worker finished; `Some` carries the decoded buffer, `None` means
    /// the decode failed or the worker panicked.
    Finished(Option<DecodedImage>),
}

/// The requester names of an entry, as sequences of characters.
pub open spec fn names_of(requesters: Seq<String>) -> Seq<Seq<char>> {
    requesters.map_values(|s: String| s@)
}

/// The invariant of a single cache entry: someone is waiting on it, and it
/// holds a decoded buffer exactly when its decode task is no longer running.
pub open spec fn entry_inv(e: Image) -> bool {
    &&& e.requesters.len() > 0
    &&& (e.data is Some <==> !e.task_running)
}

/// The entry a first request creates: no data yet, a decode in flight, the
/// requester recorded as the sole waiter.
pub open spec fn fresh_entry(e: Image, requester: Seq<char>) -> bool {
    &&& e.data is None
    &&& e.task_running
    &&& names_of(e.requesters@) == seq![requester]
}

/// Outcome of a request for a path the cache does not hold — whether the
/// path was never requested or a failed decode purged it: a fresh entry is
/// recorded for the path, the rest of the cache is untouched, and the caller
/// is told to wait (having seen no prior entry, it spawns the decode worker).
pub open spec fn first_request_outcome(
    pre: Map<Seq<char>, Image>,
    post: Map<Seq<char>, Image>,
    path: Seq<char>,
    requester: Seq<char>,
    status: ImageLoaderStatus,
) -> bool {
    &&& status is Waiting
    &&& post.contains_key(path)
    &&& fresh_entry(post[path], requester)
    &&& post == pre.insert(path, post[path])
}

/// `after` is `before` with `requester` appended when it was not already
/// recorded: a requester is recorded by its first call for a path and is
/// not re-added by later polls.
pub open spec fn requester_recorded(
    before: Seq<Seq<char>>,
    after: Seq<Seq<char>>,
    requester: Seq<char>,
) -> bool {
    if before.contains(requester) {
        after == before
    } else {
        after == before.push(requester)
    }
}

/// `after` is `before` with one occurrence of `requester` removed, if any
/// was present; insertion order is irrelevant, so no position is pinned.
pub open spec fn one_requester_removed(
    before: Seq<Seq<char>>,
    after: Seq<Seq<char>>,
    requester: Seq<char>,
) -> bool {
    if exists|i: int| 0 <= i < before.len() && before[i] == requester {
        exists|i: int|
            0 <= i < before.len() && before[i] == requester && after == before.remove(i)
    } else {
        after == before
    }
}

/// Outcome of a request that finds the decoded buffer for `path` available
/// (`data`): the caller always receives the picture.  The sole recorded
/// requester consumes the entry, which leaves the cache; any other caller
/// gets a copy, and the entry survives with its buffer intact for the
/// remaining requesters — only the caller's own name is dropped from the
/// requester list.
pub open spec fn delivery_outcome(
    pre: Map<Seq<char>, Image>,
    post: Map<Seq<char>, Image>,
    path: Seq<char>,
    requester: Seq<char>,
    data: DecodedImage,
    status: ImageLoaderStatus,
) -> bool {
    let rs = names_of(pre[path].requesters@);
    &&& status matches ImageLoaderStatus::Loaded(img) && same_image(img, data)
    &&& if rs == seq![requester] {
        post == pre.remove(path)
    } else {
        &&& post.contains_key(path)
        &&& post == pre.insert(path, post[path])
        &&& post[path].data matches Some(kept) && same_image(kept, data)
        &&& !post[path].task_running
        &&& one_requester_removed(rs, names_of(post[path].requesters@), requester)
    }
}

/// The decode cache, keyed by file path.
pub struct ImageLoader {
    images: StringHashMap<Image>,
}

impl View for ImageLoader {
    type V = Map<Seq<char>, Image>;

    closed spec fn view(&self) -> Map<Seq<char>, Image> {
        self.images@
    }
}

impl ImageLoader {
    /// Every entry of the cache satisfies [`entry_inv`]; in particular no
    /// entry ever sits in the cache with an empty requester list.
    pub open spec fn wf(self) -> bool {
        forall|p: Seq<char>| #[trigger] self@.contains_key(p) ==> entry_inv(self@[p])
    }

    /// An empty cache: no decode in flight, no buffer retained.
    pub fn new() -> (loader: Self)
        ensures
            loader@ == Map::<Seq<char>, Image>::empty(),
            loader.wf(),
    {
        ImageLoader { images: StringHashMap::new() }
    }

    /// Whether the cache holds an entry for `path`.  A caller that is about
    /// to request `path` and sees no entry must spawn the decode worker.
    pub fn contains_path(&self, path: &str) -> (present: bool)
        ensures
            present == self@.contains_key(path@),
    {
        self.images.contains_key(path)
    }

    /// Ask for the image at `path` on behalf of the surface named
    /// `requester_name`, reporting in `poll` what the main loop observed of
    /// the path's decode worker.
    ///
    /// * No entry for the path: a fresh entry is recorded and the caller
    ///   waits (and spawns the worker, having seen no entry beforehand).
    /// * Decode still in flight: the caller keeps waiting and is recorded as
    ///   a requester of the path — once; it is already recorded from its
    ///   first call and a repeat poll does not re-add it.
    /// * Worker finished without a buffer (decode error or panic): the entry
    ///   is purged and the caller sees `Error`; a later request for the path
    ///   starts over from scratch.
    /// * Buffer available (just joined, or already stored): it is delivered
    ///   as [`delivery_outcome`] says — the sole recorded requester consumes
    ///   the entry, anyone else receives a copy and the entry survives.
    pub fn background_load(
        &mut self,
        path: String,
        requester_name: String,
        poll: TaskPoll,
    ) -> (result: ImageLoaderStatus)
        requires
            old(self).wf(),
        ensures
            final(self).wf(),
            !old(self)@.contains_key(path@) ==> first_request_outcome(
                old(self)@,
                final(self)@,
                path@,
                requester_name@,
                result,
            ),
            old(self)@.contains_key(path@) && old(self)@[path@].task_running ==> match poll {
                TaskPoll::Running => {
                    &&& result is Waiting
                    &&& final(self)@.contains_key(path@)
                    &&& final(self)@ == old(self)@.insert(path@, final(self)@[path@])
                    &&& final(self)@[path@].task_running
                    &&& final(self)@[path@].data == old(self)@[path@].data
                    &&& requester_recorded(
                        names_of(old(self)@[path@].requesters@),
                        names_of(final(self)@[path@].requesters@),
                        requester_name@,
                    )
                },
                TaskPoll::Finished(None) => result is Error && final(self)@ == old(self)@.remove(
                    path@,
                ),
                TaskPoll::Finished(Some(decoded)) => delivery_outcome(
                    old(self)@,
                    final(self)@,
                    path@,
                    requester_name@,
                    decoded,
                    result,
                ),
            },
            old(self)@.contains_key(path@) && !old(self)@[path@].task_running
                ==> delivery_outcome(
                old(self)@,
                final(self)@,
                path@,
                requester_name@,
                old(self)@[path@].data->Some_0,
                result,
            ),
    {
        if !self.images.contains_key(path.as_str()) {
            self.start_new_thread(path, requester_name);
            return ImageLoaderStatus::Waiting;
        }
        let (task_running, requesters) = match self.images.get(path.as_str()) {
            Some(entry) => (entry.task_running, clone_strings(&entry.requesters)),
            None => unreached(),
        };
        if task_running {
            match poll {
                TaskPoll::Running => {
                    self.record_requester(path, requester_name);
                    ImageLoaderStatus::Waiting
                },
                TaskPoll::Finished(None) => {
                    self.images.remove(path.as_str());
                    ImageLoaderStatus::Error
                },
                TaskPoll::Finished(Some(decoded)) => self.deliver(
                    path,
                    requester_name,
                    requesters,
                    decoded,
                ),
            }
        } else {
            let data = match self.images.get(path.as_str()) {
                Some(entry) => match &entry.data {
                    Some(d) => clone_image(d),
                    None => unreached(),
                },
                None => unreached(),
            };
            self.deliver(path, requester_name, requesters, data)
        }
    }

    /// Record a fresh entry for a path the cache does not hold.  The caller
    /// of `background_load` spawns the matching decode worker; the worker's
    /// progress comes back through [`TaskPoll`].
    fn start_new_thread(&mut self, path: String, requester_name: String)
        requires
            old(self).wf(),
            !old(self)@.contains_key(path@),
        ensures
            final(self).wf(),
            first_request_outcome(
                old(self)@,
                final(self)@,
                path@,
                requester_name@,
                ImageLoaderStatus::Waiting,
            ),
    {
        let mut requesters: Vec<String> = Vec::new();
        requesters.push(requester_name);
        proof {
            assert(names_of(requesters@) =~= seq![requester_name@]);
        }
        let entry = Image { data: None, task_running: true, requesters };
        self.images.insert(path, entry);
        proof {
            assert(self@ =~= old(self)@.insert(path@, self@[path@]));
            assert forall|p: Seq<char>| #[trigger] self@.contains_key(p) implies entry_inv(
                self@[p],
            ) by {
                if p != path@ {
                    assert(old(self)@.contains_key(p));
                }
            }
        }
    }

    /// Record `requester_name` as a waiter on the in-flight entry for
    /// `path`, deduplicating: a requester already recorded from its first
    /// call is not re-added.
    fn record_requester(&mut self, path: String, requester_name: String)
        requires
            old(self).wf(),
            old(self)@.contains_key(path@),
            old(self)@[path@].task_running,
        ensures
            final(self).wf(),
            final(self)@.contains_key(path@),
            final(self)@ == old(self)@.insert(path@, final(self)@[path@]),
            final(self)@[path@].task_running,
            final(self)@[path@].data == old(self)@[path@].data,
            requester_recorded(
                names_of(old(self)@[path@].requesters@),
                names_of(final(self)@[path@].requesters@),
                requester_name@,
            ),
    {
        let mut requesters = match self.images.get(path.as_str()) {
            Some(entry) => clone_strings(&entry.requesters),
            None => unreached(),
        };
        let present = contains_string(&requesters, &requester_name);
        if !present {
            let ghost before = names_of(requesters@);
            requesters.push(requester_name);
            proof {
                assert(names_of(requesters@) =~= before.push(requester_name@));
            }
        }
        self.images.insert(path, Image { data: None, task_running: true, requesters });
        proof {
            assert(old(self)@[path@].data is None);
            assert(self@ =~= old(self)@.insert(path@, self@[path@]));
            assert forall|p: Seq<char>| #[trigger] self@.contains_key(p) implies entry_inv(
                self@[p],
            ) by {
                if p != path@ {
                    assert(old(self)@.contains_key(p));
                }
            }
        }
    }

    /// Hand the available buffer for `path` to `requester_name`, with the
    /// move-or-copy bookkeeping of [`delivery_outcome`].  `requesters` is a
    /// copy of the entry's requester list and `data` carries the picture.
    fn deliver(
        &mut self,
        path: String,
        requester_name: String,
        requesters: Vec<String>,
        data: DecodedImage,
    ) -> (result: ImageLoaderStatus)
        requires
            old(self).wf(),
            old(self)@.contains_key(path@),
            names_of(requesters@) == names_of(old(self)@[path@].requesters@),
            requesters.len() > 0,
        ensures
            final(self).wf(),
            delivery_outcome(old(self)@, final(self)@, path@, requester_name@, data, result),
    {
        let sole = requesters.len() == 1 && requesters[0] == requester_name;
        if sole {
            proof {
                assert(names_of(requesters@) =~= seq![requester_name@]);
            }
            self.images.remove(path.as_str());
            ImageLoaderStatus::Loaded(data)
        } else {
            proof {
                let rs = names_of(requesters@);
                assert(rs.len() == requesters@.len());
                if rs == seq![requester_name@] {
                    assert(rs[0] == requesters@[0]@);
                    assert(rs[0] == requester_name@);
                    assert(false);
                }
            }
            let mut remaining = requesters;
            remove_requester(&mut remaining, &requester_name);
            proof {
                assert(remaining.len() > 0) by {
                    let before = names_of(old(self)@[path@].requesters@);
                    let after = names_of(remaining@);
                    if after.len() == 0 {
                        // only removing the sole element empties the list,
                        // and that is the branch above
                        assert(before.len() == 1 && before[0] == requester_name@);
                        assert(before =~= seq![requester_name@]);
                    }
                }
            }
            let kept = clone_image(&data);
            self.images.insert(
                path,
                Image { data: Some(kept), task_running: false, requesters: remaining },
            );
            proof {
                assert(self@ =~= old(self)@.insert(path@, self@[path@]));
                assert forall|p: Seq<char>| #[trigger] self@.contains_key(p) implies entry_inv(
                    self@[p],
                ) by {
                    if p != path@ {
                        assert(old(self)@.contains_key(p));
                    }
                }
            }
            ImageLoaderStatus::Loaded(data)
        }
    }

    /// Debug sweep: no decode worker is ever kept alive for an entry that
    /// nobody requested.  Without verification this would walk the cache at
    /// run time and assert that no entry waits on zero requesters; here the
    /// sweep is subsumed by proof — [`ImageLoader::wf`] holds at every call
    /// boundary, so the check can only report success.
    pub fn check_lingering_threads(&self) -> (ok: bool)
        requires
            self.wf(),
        ensures
            ok == forall|p: Seq<char>|
                #[trigger] self@.contains_key(p) ==> self@[p].requesters.len() > 0,
    {
        proof {
            assert forall|p: Seq<char>| #[trigger] self@.contains_key(p) implies self@[
                p
            ].requesters.len() > 0 by {
                assert(entry_inv(self@[p]));
            }
        }
        true
    }
}

/// A request retried after a failed decode purged its path behaves exactly
/// like a first-ever request: [`first_request_outcome`] constrains the
/// returned status, the created entry and the rest of the cache in the same
/// way whether the cache never held the path or a failure removed it.
pub proof fn lemma_retry_after_failure_is_first_request(
    purged: Map<Seq<char>, Image>,
    untouched: Map<Seq<char>, Image>,
    post_purged: Map<Seq<char>, Image>,
    post_untouched: Map<Seq<char>, Image>,
    path: Seq<char>,
    requester: Seq<char>,
    status_purged: ImageLoaderStatus,
    status_untouched: ImageLoaderStatus,
)
    requires
        !purged.contains_key(path),
        !untouched.contains_key(path),
        first_request_outcome(purged, post_purged, path, requester, status_purged),
        first_request_outcome(untouched, post_untouched, path, requester, status_untouched),
    ensures
        status_purged is Waiting && status_untouched is Waiting,
        fresh_entry(post_purged[path], requester),
        fresh_entry(post_untouched[path], requester),
        post_purged.remove(path) == purged,
        post_untouched.remove(path) == untouched,
{
    assert(post_purged.remove(path) =~= purged);
    assert(post_untouched.remove(path) =~= untouched);
}

/// Copy of a pixel buffer, for a path that several surfaces share.
fn clone_image(img: &DecodedImage) -> (copied: DecodedImage)
    ensures
        same_image(copied, *img),
{
    let mut pixels: Vec<u8> = Vec::new();
    let mut i: usize = 0;
    while i < img.pixels.len()
        invariant
            i <= img.pixels.len(),
            pixels@ == img.pixels@.subrange(0, i as int),
        decreases img.pixels.len() - i,
    {
        pixels.push(img.pixels[i]);
        proof {
            assert(pixels@ =~= img.pixels@.subrange(0, i + 1));
        }
        i = i + 1;
    }
    proof {
        assert(pixels@ =~= img.pixels@);
    }
    DecodedImage { width: img.width, height: img.height, pixels }
}

/// Copy of a requester list.
fn clone_strings(v: &Vec<String>) -> (copied: Vec<String>)
    ensures
        copied@ == v@,
{
    let mut out: Vec<String> = Vec::new();
    let mut i: usize = 0;
    while i < v.len()
        invariant
            i <= v.len(),
            out@ == v@.subrange(0, i as int),
        decreases v.len() - i,
    {
        out.push(v[i].clone());
        proof {
            assert(out@ =~= v@.subrange(0, i + 1));
        }
        i = i + 1;
    }
    proof {
        assert(out@ =~= v@);
    }
    out
}

/// Whether `v` holds a name with the characters of `s`.
fn contains_string(v: &Vec<String>, s: &String) -> (present: bool)
    ensures
        present == names_of(v@).contains(s@),
{
    let mut i: usize = 0;
    let n = v.len();
    while i < n
        invariant
            i <= n,
            n == v.len(),
            forall|j: int| 0 <= j < i ==> names_of(v@)[j] != s@,
        decreases n - i,
    {
        if v[i] == *s {
            proof {
                assert(names_of(v@)[i as int] == s@);
                assert(names_of(v@).contains(s@));
            }
            return true;
        }
        i = i + 1;
    }
    proof {
        assert(forall|j: int| 0 <= j < names_of(v@).len() ==> names_of(v@)[j] != s@);
        assert(!names_of(v@).contains(s@));
    }
    false
}

/// Drop one occurrence of `requester` from `rs`, if any is present.
fn remove_requester(rs: &mut Vec<String>, requester: &String)
    ensures
        one_requester_removed(names_of(old(rs)@), names_of(final(rs)@), requester@),
{
    let mut i: usize = 0;
    let n = rs.len();
    while i < n
        invariant
            i <= n,
            n == rs.len(),
            *rs == *old(rs),
            forall|j: int| 0 <= j < i ==> names_of(rs@)[j] != requester@,
        decreases n - i,
    {
        if rs[i] == *requester {
            let ghost before = names_of(rs@);
            rs.remove(i);
            proof {
                assert(before[i as int] == requester@);
                assert(names_of(rs@) =~= before.remove(i as int));
            }
            return ;
        }
        i = i + 1;
    }
    proof {
        let before = names_of(old(rs)@);
        assert(forall|j: int| 0 <= j < before.len() ==> before[j] != requester@);
    }
}

} // verus!
