use vstd::prelude::*;

use crate::channel::clone_opt_string;
use crate::error::Error;
use crate::store::{Database, MemoryStore, StoreV};

verus! {

/// A trip record. Dates are milliseconds since the epoch; a set
/// `deletion_date` marks the record as soft-deleted while preserving
/// history.
pub struct Trip {
    pub id: Option<String>,
    pub user_id: String,
    pub destination: String,
    pub start_date: i64,
    pub end_date: i64,
    pub deletion_date: Option<i64>,
}

/// Mathematical value of a `Trip`.
#[verifier::ext_equal]
pub struct TripV {
    pub id: Option<Seq<char>>,
    pub user_id: Seq<char>,
    pub destination: Seq<char>,
    pub start_date: i64,
    pub end_date: i64,
    pub deletion_date: Option<i64>,
}

impl DeepView for Trip {
    type V = TripV;

    open spec fn deep_view(&self) -> TripV {
        TripV {
            id: self.id.deep_view(),
            user_id: self.user_id@,
            destination: self.destination@,
            start_date: self.start_date,
            end_date: self.end_date,
            deletion_date: self.deletion_date,
        }
    }
}

/// A comment on a trip. `created_at` is milliseconds since the epoch.
pub struct TripComment {
    pub id: Option<String>,
    pub trip_id: String,
    pub user_id: String,
    pub content: String,
    pub created_at: i64,
}

/// Mathematical value of a `TripComment`.
#[verifier::ext_equal]
pub struct TripCommentV {
    pub id: Option<Seq<char>>,
    pub trip_id: Seq<char>,
    pub user_id: Seq<char>,
    pub content: Seq<char>,
    pub created_at: i64,
}

impl DeepView for TripComment {
    type V = TripCommentV;

    open spec fn deep_view(&self) -> TripCommentV {
        TripCommentV {
            id: self.id.deep_view(),
            trip_id: self.trip_id@,
            user_id: self.user_id@,
            content: self.content@,
            created_at: self.created_at,
        }
    }
}

impl Trip {
    /// Copy a trip, keeping its contents.
    pub fn duplicate(&self) -> (r: Trip)
        ensures
            r.deep_view() == self.deep_view(),
    {
        Trip {
            id: clone_opt_string(&self.id),
            user_id: self.user_id.clone(),
            destination: self.destination.clone(),
            start_date: self.start_date,
            end_date: self.end_date,
            deletion_date: self.deletion_date,
        }
    }
}

impl TripComment {
    /// Copy a comment, keeping its contents.
    pub fn duplicate(&self) -> (r: TripComment)
        ensures
            r.deep_view() == self.deep_view(),
    {
        TripComment {
            id: clone_opt_string(&self.id),
            trip_id: self.trip_id.clone(),
            user_id: self.user_id.clone(),
            content: self.content.clone(),
            created_at: self.created_at,
        }
    }
}

// ---------------------------------------------------------------------------
// Queries
// ---------------------------------------------------------------------------

/// The query order on trips for a requesting user: the user's own trips come
/// first, and within each group trips that end earlier come first.
pub open spec fn trip_le(current_user: Seq<char>, a: TripV, b: TripV) -> bool {
    let ka: int = if a.user_id == current_user {
        0
    } else {
        1
    };
    let kb: int = if b.user_id == current_user {
        0
    } else {
        1
    };
    ka < kb || (ka == kb && a.end_date <= b.end_date)
}

/// A trip the query shows: in the destination, not yet started before
/// today, and not soft-deleted.
pub open spec fn trip_visible(t: TripV, destination: Seq<char>, today: i64) -> bool {
    t.destination == destination && t.start_date >= today && t.deletion_date is None
}

/// The visible trips, in storage order.
pub open spec fn visible_trips(trips: Seq<TripV>, destination: Seq<char>, today: i64) -> Seq<TripV>
    decreases trips.len(),
{
    if trips.len() == 0 {
        Seq::empty()
    } else if trip_visible(trips[0], destination, today) {
        seq![trips[0]] + visible_trips(trips.drop_first(), destination, today)
    } else {
        visible_trips(trips.drop_first(), destination, today)
    }
}

/// Insert a trip into a sorted run, before the first entry it precedes.
pub open spec fn insert_trip_sorted(s: Seq<TripV>, t: TripV, user: Seq<char>) -> Seq<TripV>
    decreases s.len(),
{
    if s.len() == 0 {
        seq![t]
    } else if trip_le(user, t, s[0]) {
        seq![t] + s
    } else {
        seq![s[0]] + insert_trip_sorted(s.drop_first(), t, user)
    }
}

/// Insertion sort over trips, processing the input left to right.
pub open spec fn sort_trips(s: Seq<TripV>, user: Seq<char>) -> Seq<TripV>
    decreases s.len(),
{
    if s.len() == 0 {
        Seq::empty()
    } else {
        insert_trip_sorted(sort_trips(s.drop_last(), user), s.last(), user)
    }
}

/// Inserting at the first position whose entry the new trip precedes is
/// inserting into the sequence at that index.
proof fn lemma_insert_trip_at(s: Seq<TripV>, t: TripV, user: Seq<char>, i: int)
    requires
        0 <= i <= s.len(),
        forall|j: int| 0 <= j < i ==> !trip_le(user, t, s[j]),
        i < s.len() ==> trip_le(user, t, s[i]),
    ensures
        insert_trip_sorted(s, t, user) =~= s.insert(i, t),
    decreases i,
{
    if i == 0 {
        if s.len() == 0 {
            assert(insert_trip_sorted(s, t, user) =~= s.insert(0, t));
        } else {
            assert(insert_trip_sorted(s, t, user) =~= s.insert(0, t));
        }
    } else {
        let rest = s.drop_first();
        assert(forall|j: int| 0 <= j < i - 1 ==> rest[j] == s[j + 1]);
        lemma_insert_trip_at(rest, t, user, i - 1);
        assert(seq![s[0]] + rest.insert(i - 1, t) =~= s.insert(i, t));
    }
}

/// What the trip query answers: the visible trips of the destination,
/// ordered own-first and by end date within each group.
pub open spec fn fetch_trips_spec(
    trips: Seq<TripV>,
    destination: Seq<char>,
    current_user: Seq<char>,
    today: i64,
) -> Seq<TripV> {
    sort_trips(visible_trips(trips, destination, today), current_user)
}

/// Whether a run of trips is sorted for the requesting user.
pub open spec fn trips_sorted(s: Seq<TripV>, user: Seq<char>) -> bool {
    forall|i: int, j: int| 0 <= i < j < s.len() ==> trip_le(user, #[trigger] s[i], #[trigger] s[j])
}

/// Inserting into a sorted run keeps it sorted.
proof fn lemma_insert_trip_sorted_keeps(s: Seq<TripV>, t: TripV, user: Seq<char>)
    requires
        trips_sorted(s, user),
    ensures
        trips_sorted(insert_trip_sorted(s, t, user), user),
    decreases s.len(),
{
    if s.len() == 0 {
    } else if trip_le(user, t, s[0]) {
        let out = seq![t] + s;
        assert forall|i: int, j: int| 0 <= i < j < out.len() implies trip_le(
            user,
            out[i],
            out[j],
        ) by {
            if i == 0 {
                assert(out[j] == s[j - 1]);
                if j > 1 {
                    assert(trip_le(user, s[0], s[j - 1]));
                }
            } else {
                assert(out[i] == s[i - 1]);
                assert(out[j] == s[j - 1]);
            }
        }
    } else {
        let rest = s.drop_first();
        assert(forall|j: int| 0 <= j < rest.len() ==> rest[j] == s[j + 1]);
        lemma_insert_trip_sorted_keeps(rest, t, user);
        let sub = insert_trip_sorted(rest, t, user);
        let out = seq![s[0]] + sub;
        assert(insert_trip_sorted(s, t, user) == out);
        assert forall|i: int, j: int| 0 <= i < j < out.len() implies trip_le(
            user,
            out[i],
            out[j],
        ) by {
            if i == 0 {
                assert(out[j] == sub[j - 1]);
                lemma_insert_trip_member(rest, t, user, j - 1);
                // out[j] is either t or an element of rest, and s[0]
                // precedes both.
            } else {
                assert(out[i] == sub[i - 1]);
                assert(out[j] == sub[j - 1]);
            }
        }
    }
}

/// Every entry of an insertion result is the inserted trip or one of the
/// run's entries.
proof fn lemma_insert_trip_member(s: Seq<TripV>, t: TripV, user: Seq<char>, k: int)
    requires
        0 <= k < insert_trip_sorted(s, t, user).len(),
    ensures
        insert_trip_sorted(s, t, user)[k] == t || s.contains(insert_trip_sorted(s, t, user)[k]),
    decreases s.len(),
{
    if s.len() == 0 {
    } else if trip_le(user, t, s[0]) {
        if k > 0 {
            assert((seq![t] + s)[k] == s[k - 1]);
        }
    } else {
        if k == 0 {
        } else {
            let rest = s.drop_first();
            lemma_insert_trip_member(rest, t, user, k - 1);
            assert((seq![s[0]] + insert_trip_sorted(rest, t, user))[k] == insert_trip_sorted(
                rest,
                t,
                user,
            )[k - 1]);
            if rest.contains(insert_trip_sorted(rest, t, user)[k - 1]) {
                let w = choose|w: int|
                    0 <= w < rest.len() && rest[w] == insert_trip_sorted(rest, t, user)[k - 1];
                assert(s[w + 1] == rest[w]);
            }
        }
    }
}

/// The query's answer is sorted: the requesting user's own trips come
/// first, ordered by end date, then everyone else's, ordered by end date.
pub proof fn lemma_fetch_trips_sorted(
    trips: Seq<TripV>,
    destination: Seq<char>,
    current_user: Seq<char>,
    today: i64,
)
    ensures
        trips_sorted(fetch_trips_spec(trips, destination, current_user, today), current_user),
{
    lemma_sort_trips_sorted(visible_trips(trips, destination, today), current_user);
}

/// Insertion sort sorts.
proof fn lemma_sort_trips_sorted(s: Seq<TripV>, user: Seq<char>)
    ensures
        trips_sorted(sort_trips(s, user), user),
    decreases s.len(),
{
    if s.len() > 0 {
        lemma_sort_trips_sorted(s.drop_last(), user);
        lemma_insert_trip_sorted_keeps(sort_trips(s.drop_last(), user), s.last(), user);
    }
}

// ---------------------------------------------------------------------------
// Trip updates
// ---------------------------------------------------------------------------

/// Whether the soft-deletion sweep hits a trip: the user's own future trip
/// in the destination, not yet deleted, and not the one being spared.
pub open spec fn sweep_hits(
    t: TripV,
    user: Seq<char>,
    destination: Seq<char>,
    except: Option<Seq<char>>,
    now: i64,
) -> bool {
    &&& t.user_id == user
    &&& t.destination == destination
    &&& t.start_date > now
    &&& t.deletion_date is None
    &&& (match except {
        Some(e) => t.id != Some(e),
        None => true,
    })
}

/// The trips after the soft-deletion sweep: every hit trip gets its
/// deletion date set to now, everything else is untouched.
pub open spec fn sweep_trips(
    trips: Seq<TripV>,
    user: Seq<char>,
    destination: Seq<char>,
    except: Option<Seq<char>>,
    now: i64,
) -> Seq<TripV> {
    Seq::new(
        trips.len(),
        |i: int|
            if sweep_hits(trips[i], user, destination, except, now) {
                TripV { deletion_date: Some(now), ..trips[i] }
            } else {
                trips[i]
            },
    )
}

/// Whether a targeted deletion may touch a trip: the id matches, the caller
/// owns it, and it is not already deleted.
pub open spec fn deletable(t: TripV, trip_id: Seq<char>, user: Seq<char>) -> bool {
    t.id == Some(trip_id) && t.user_id == user && t.deletion_date is None
}

/// The trips with the first deletable match soft-deleted; unchanged when
/// none matches.
pub open spec fn delete_trip_first(
    trips: Seq<TripV>,
    trip_id: Seq<char>,
    user: Seq<char>,
    now: i64,
) -> Seq<TripV>
    decreases trips.len(),
{
    if trips.len() == 0 {
        trips
    } else if deletable(trips[0], trip_id, user) {
        seq![TripV { deletion_date: Some(now), ..trips[0] }] + trips.drop_first()
    } else {
        seq![trips[0]] + delete_trip_first(trips.drop_first(), trip_id, user, now)
    }
}

/// Soft-deleting the first match is updating at its index.
proof fn lemma_delete_trip_at(trips: Seq<TripV>, trip_id: Seq<char>, user: Seq<char>, now: i64, i: int)
    requires
        0 <= i < trips.len(),
        deletable(trips[i], trip_id, user),
        forall|j: int| 0 <= j < i ==> !deletable(trips[j], trip_id, user),
    ensures
        delete_trip_first(trips, trip_id, user, now) =~= trips.update(
            i,
            TripV { deletion_date: Some(now), ..trips[i] },
        ),
    decreases i,
{
    if i == 0 {
    } else {
        let rest = trips.drop_first();
        assert(forall|j: int| 0 <= j < i - 1 ==> rest[j] == trips[j + 1]);
        lemma_delete_trip_at(rest, trip_id, user, now, i - 1);
        assert(seq![trips[0]] + rest.update(i - 1, TripV { deletion_date: Some(now), ..trips[i] })
            =~= trips.update(i, TripV { deletion_date: Some(now), ..trips[i] }));
    }
}

// ---------------------------------------------------------------------------
// Comments
// ---------------------------------------------------------------------------

/// Whether a comment query may read a trip: it exists in the destination
/// and is not soft-deleted.
pub open spec fn trip_readable(t: TripV, trip_id: Seq<char>, destination: Seq<char>) -> bool {
    t.id == Some(trip_id) && t.destination == destination && t.deletion_date is None
}

/// The comments on a trip, in storage order.
pub open spec fn comments_of(comments: Seq<TripCommentV>, trip_id: Seq<char>) -> Seq<TripCommentV>
    decreases comments.len(),
{
    if comments.len() == 0 {
        Seq::empty()
    } else if comments[0].trip_id == trip_id {
        seq![comments[0]] + comments_of(comments.drop_first(), trip_id)
    } else {
        comments_of(comments.drop_first(), trip_id)
    }
}

/// The comment order: newest first.
pub open spec fn comment_le(a: TripCommentV, b: TripCommentV) -> bool {
    a.created_at >= b.created_at
}

/// Insert a comment into a newest-first run, before the first entry it
/// precedes.
pub open spec fn insert_comment_sorted(s: Seq<TripCommentV>, c: TripCommentV) -> Seq<TripCommentV>
    decreases s.len(),
{
    if s.len() == 0 {
        seq![c]
    } else if comment_le(c, s[0]) {
        seq![c] + s
    } else {
        seq![s[0]] + insert_comment_sorted(s.drop_first(), c)
    }
}

/// Insertion sort over comments, newest first.
pub open spec fn sort_comments(s: Seq<TripCommentV>) -> Seq<TripCommentV>
    decreases s.len(),
{
    if s.len() == 0 {
        Seq::empty()
    } else {
        insert_comment_sorted(sort_comments(s.drop_last()), s.last())
    }
}

/// Inserting at the first position whose entry the new comment precedes is
/// inserting into the sequence at that index.
proof fn lemma_insert_comment_at(s: Seq<TripCommentV>, c: TripCommentV, i: int)
    requires
        0 <= i <= s.len(),
        forall|j: int| 0 <= j < i ==> !comment_le(c, s[j]),
        i < s.len() ==> comment_le(c, s[i]),
    ensures
        insert_comment_sorted(s, c) =~= s.insert(i, c),
    decreases i,
{
    if i == 0 {
    } else {
        let rest = s.drop_first();
        assert(forall|j: int| 0 <= j < i - 1 ==> rest[j] == s[j + 1]);
        lemma_insert_comment_at(rest, c, i - 1);
        assert(seq![s[0]] + rest.insert(i - 1, c) =~= s.insert(i, c));
    }
}

// ---------------------------------------------------------------------------
// Backend operations
// ---------------------------------------------------------------------------

impl MemoryStore {
    /// Record a new trip under a fresh identifier, then sweep the user's
    /// other future trips in the same destination: within a destination, a
    /// user keeps one upcoming trip.
    pub fn insert_trip(&mut self, trip: &Trip, new_id: String, now: i64)
        ensures
            final(self).deep_view() == (StoreV {
                trips: sweep_trips(
                    old(self).deep_view().trips.push(
                        TripV { id: Some(new_id@), ..trip.deep_view() },
                    ),
                    trip.user_id@,
                    trip.destination@,
                    Some(new_id@),
                    now,
                ),
                ..old(self).deep_view()
            }),
    {
        let except_id = new_id.clone();
        let mut stored = trip.duplicate();
        stored.id = Some(new_id);
        let ghost pushed = stored.deep_view();
        self.trips.push(stored);
        proof {
            assert(pushed =~= (TripV { id: Some(except_id@), ..trip.deep_view() }));
            assert(self.trips.deep_view() =~= old(self).deep_view().trips.push(pushed));
            assert(self.deep_view() =~= (StoreV {
                trips: old(self).deep_view().trips.push(pushed),
                ..old(self).deep_view()
            }));
        }
        self.mark_user_trips_as_deleted_in_destination(&trip.user_id, &trip.destination, Some(&except_id), now);
        proof {
            assert(self.deep_view() =~= (StoreV {
                trips: sweep_trips(
                    old(self).deep_view().trips.push(
                        TripV { id: Some(except_id@), ..trip.deep_view() },
                    ),
                    trip.user_id@,
                    trip.destination@,
                    Some(except_id@),
                    now,
                ),
                ..old(self).deep_view()
            }));
        }
    }

    /// Soft-delete every future trip of the user in the destination, except
    /// the spared one: their deletion dates are set to now, atomically with
    /// respect to the filter.
    pub fn mark_user_trips_as_deleted_in_destination(
        &mut self,
        user_id: &String,
        destination: &String,
        except: Option<&String>,
        now: i64,
    )
        ensures
            final(self).deep_view() == (StoreV {
                trips: sweep_trips(
                    old(self).deep_view().trips,
                    user_id@,
                    destination@,
                    match except {
                        Some(e) => Some(e@),
                        None => None,
                    },
                    now,
                ),
                ..old(self).deep_view()
            }),
    {
        let ghost dv = self.trips.deep_view();
        let ghost exceptv: Option<Seq<char>> = match except {
            Some(e) => Some(e@),
            None => None,
        };
        let mut out: Vec<Trip> = Vec::new();
        let mut i: usize = 0;
        while i < self.trips.len()
            invariant
                i <= self.trips.len(),
                *self == *old(self),
                dv == self.trips.deep_view(),
                exceptv == (match except {
                    Some(e) => Some(e@),
                    None => None,
                }),
                out.len() == i,
                forall|j: int|
                    0 <= j < i ==> out.deep_view()[j] == sweep_trips(
                        dv,
                        user_id@,
                        destination@,
                        exceptv,
                        now,
                    )[j],
            decreases self.trips.len() - i,
        {
            proof {
                assert(dv[i as int] == self.trips@[i as int].deep_view());
            }
            let hit = self.trips[i].user_id == *user_id && self.trips[i].destination
                == *destination && self.trips[i].start_date > now
                && self.trips[i].deletion_date.is_none() && (match except {
                Some(e) => {
                    match &self.trips[i].id {
                        Some(tid) => !(*tid == *e),
                        None => true,
                    }
                },
                None => true,
            });
            let ghost prev_dv = out.deep_view();
            let mut copied = self.trips[i].duplicate();
            if hit {
                copied.deletion_date = Some(now);
            }
            out.push(copied);
            proof {
                assert(forall|j: int| 0 <= j < i ==> #[trigger] out.deep_view()[j] == prev_dv[j]);
                assert(out.deep_view()[i as int] == out@[i as int].deep_view());
            }
            i = i + 1;
        }
        self.trips = out;
        proof {
            assert(self.trips.deep_view() =~= sweep_trips(
                dv,
                user_id@,
                destination@,
                exceptv,
                now,
            ));
            assert(self.deep_view() =~= (StoreV {
                trips: sweep_trips(dv, user_id@, destination@, exceptv, now),
                ..old(self).deep_view()
            }));
        }
    }

    /// The visible trips of a destination, the requesting user's own trips
    /// first and earlier end dates first within each group.
    pub fn fetch_trips_by_date_and_destination(
        &self,
        destination: &String,
        current_user_id: &String,
        today: i64,
    ) -> (r: Vec<Trip>)
        ensures
            r.deep_view() == fetch_trips_spec(
                self.deep_view().trips,
                destination@,
                current_user_id@,
                today,
            ),
    {
        let ghost dv = self.trips.deep_view();
        proof {
            assert(dv.skip(0) =~= dv);
        }
        let mut visible: Vec<Trip> = Vec::new();
        let mut i: usize = 0;
        while i < self.trips.len()
            invariant
                i <= self.trips.len(),
                dv == self.trips.deep_view(),
                visible_trips(dv, destination@, today) == visible.deep_view() + visible_trips(
                    dv.skip(i as int),
                    destination@,
                    today,
                ),
            decreases self.trips.len() - i,
        {
            proof {
                assert(dv[i as int] == self.trips@[i as int].deep_view());
                assert(dv.skip(i as int)[0] == dv[i as int]);
                assert(dv.skip(i as int).drop_first() =~= dv.skip(i as int + 1));
            }
            if self.trips[i].destination == *destination && self.trips[i].start_date >= today
                && self.trips[i].deletion_date.is_none() {
                let ghost before = visible.deep_view();
                visible.push(self.trips[i].duplicate());
                proof {
                    assert(visible.deep_view() =~= before.push(dv[i as int]));
                    assert((before + (seq![dv[i as int]] + visible_trips(
                        dv.skip(i as int + 1),
                        destination@,
                        today,
                    ))) =~= (before.push(dv[i as int]) + visible_trips(
                        dv.skip(i as int + 1),
                        destination@,
                        today,
                    )));
                }
            }
            i = i + 1;
        }
        proof {
            assert(dv.skip(i as int) =~= Seq::<TripV>::empty());
            assert(visible.deep_view() + Seq::<TripV>::empty() =~= visible.deep_view());
        }

        // Insertion sort: the user's own trips first, then by end date.
        let ghost vv = visible.deep_view();
        let mut out: Vec<Trip> = Vec::new();
        let mut k: usize = 0;
        while k < visible.len()
            invariant
                k <= visible.len(),
                vv == visible.deep_view(),
                out.deep_view() == sort_trips(vv.take(k as int), current_user_id@),
            decreases visible.len() - k,
        {
            proof {
                assert(vv[k as int] == visible@[k as int].deep_view());
            }
            let t = visible[k].duplicate();
            let ghost tdv = t.deep_view();
            // Find the first position whose entry the new trip precedes.
            let mut pos: usize = 0;
            let mut found = false;
            while !found && pos < out.len()
                invariant
                    pos <= out.len(),
                    tdv == t.deep_view(),
                    found ==> pos < out.len() && trip_le(
                        current_user_id@,
                        tdv,
                        out.deep_view()[pos as int],
                    ),
                    forall|j: int|
                        0 <= j < pos ==> !trip_le(
                            current_user_id@,
                            tdv,
                            #[trigger] out.deep_view()[j],
                        ),
                decreases out.len() - pos, (if found { 0int } else { 1int }),
            {
                proof {
                    assert(out.deep_view()[pos as int] == out@[pos as int].deep_view());
                }
                let own_new = t.user_id == *current_user_id;
                let own_old = out[pos].user_id == *current_user_id;
                let le = (own_new && !own_old) || ((own_new == own_old) && t.end_date
                    <= out[pos].end_date);
                proof {
                    assert(le == trip_le(current_user_id@, tdv, out.deep_view()[pos as int]));
                }
                if le {
                    found = true;
                } else {
                    pos = pos + 1;
                }
            }
            let ghost out_before = out.deep_view();
            proof {
                lemma_insert_trip_at(out_before, tdv, current_user_id@, pos as int);
            }
            out.insert(pos, t);
            proof {
                assert(out.deep_view().len() == out@.len());
                assert(forall|j: int|
                    0 <= j < out@.len() ==> #[trigger] out.deep_view()[j]
                        == out@[j].deep_view());
                assert(out.deep_view() =~= out_before.insert(pos as int, tdv));
                assert(vv.take(k as int + 1).drop_last() =~= vv.take(k as int));
                assert(vv.take(k as int + 1).last() == vv[k as int]);
            }
            k = k + 1;
        }
        proof {
            assert(vv.take(vv.len() as int) =~= vv);
        }
        out
    }

    /// Soft-delete one trip: only its owner may delete it, and only once.
    /// The deletion applies atomically to a record matching "owned by the
    /// caller and not already deleted", so two concurrent deletions cannot
    /// both report success.
    pub fn delete_trip(&mut self, trip_id: &String, user_id: &String, now: i64) -> (r: Result<
        (),
        Error,
    >)
        ensures
            final(self).deep_view() == (StoreV {
                trips: delete_trip_first(old(self).deep_view().trips, trip_id@, user_id@, now),
                ..old(self).deep_view()
            }),
            r is Ok <==> exists|i: int|
                0 <= i < old(self).deep_view().trips.len() && deletable(
                    #[trigger] old(self).deep_view().trips[i],
                    trip_id@,
                    user_id@,
                ),
            r matches Err(e) ==> if exists|i: int|
                0 <= i < old(self).deep_view().trips.len()
                    && (#[trigger] old(self).deep_view().trips[i]).id == Some(trip_id@) {
                e == Error::NotAllowed
            } else {
                e == Error::NotFound
            },
    {
        let ghost dv = self.trips.deep_view();
        let mut i: usize = 0;
        while i < self.trips.len()
            invariant
                i <= self.trips.len(),
                *self == *old(self),
                dv == self.trips.deep_view(),
                forall|j: int| 0 <= j < i ==> !deletable(dv[j], trip_id@, user_id@),
            decreases self.trips.len() - i,
        {
            proof {
                assert(dv[i as int] == self.trips@[i as int].deep_view());
            }
            let id_matches = match &self.trips[i].id {
                Some(tid) => *tid == *trip_id,
                None => false,
            };
            if id_matches && self.trips[i].user_id == *user_id
                && self.trips[i].deletion_date.is_none() {
                let ghost tq = self.trips@;
                proof {
                    assert(dv.len() == tq.len());
                    assert(forall|j: int|
                        0 <= j < tq.len() ==> #[trigger] dv[j] == tq[j].deep_view());
                }
                let found = self.trips.remove(i);
                let mut replaced = found;
                replaced.deletion_date = Some(now);
                proof {
                    assert(replaced.deep_view() =~= (TripV {
                        deletion_date: Some(now),
                        ..dv[i as int]
                    }));
                }
                self.trips.insert(i, replaced);
                proof {
                    lemma_delete_trip_at(dv, trip_id@, user_id@, now, i as int);
                    assert(self.trips.deep_view().len() == self.trips@.len());
                    assert(forall|j: int|
                        0 <= j < self.trips@.len() ==> #[trigger] self.trips.deep_view()[j]
                            == self.trips@[j].deep_view());
                    assert(self.trips.deep_view() =~= dv.update(
                        i as int,
                        TripV { deletion_date: Some(now), ..dv[i as int] },
                    ));
                    assert(self.deep_view() =~= (StoreV {
                        trips: delete_trip_first(dv, trip_id@, user_id@, now),
                        ..old(self).deep_view()
                    }));
                }
                return Ok(());
            }
            i = i + 1;
        }
        proof {
            lemma_delete_trip_absent(dv, trip_id@, user_id@, now);
            assert(self.deep_view() =~= (StoreV {
                trips: delete_trip_first(dv, trip_id@, user_id@, now),
                ..old(self).deep_view()
            }));
        }
        // Nothing deletable: find out whether the trip exists at all.
        let mut k: usize = 0;
        while k < self.trips.len()
            invariant
                k <= self.trips.len(),
                *self == *old(self),
                dv == self.trips.deep_view(),
                forall|j: int| 0 <= j < dv.len() ==> !deletable(dv[j], trip_id@, user_id@),
                forall|j: int| 0 <= j < k ==> (#[trigger] dv[j]).id != Some(trip_id@),
            decreases self.trips.len() - k,
        {
            proof {
                assert(dv[k as int] == self.trips@[k as int].deep_view());
                lemma_delete_trip_absent(dv, trip_id@, user_id@, now);
            }
            let id_matches = match &self.trips[k].id {
                Some(tid) => *tid == *trip_id,
                None => false,
            };
            if id_matches {
                return Err(Error::NotAllowed);
            }
            k = k + 1;
        }
        proof {
            lemma_delete_trip_absent(dv, trip_id@, user_id@, now);
        }
        Err(Error::NotFound)
    }

    /// Record a new comment under a fresh identifier and the request's
    /// timestamp.
    pub fn create_trip_comment(&mut self, comment: &TripComment, new_id: String, now: i64)
        ensures
            final(self).deep_view() == (StoreV {
                trip_comments: old(self).deep_view().trip_comments.push(
                    TripCommentV { id: Some(new_id@), created_at: now, ..comment.deep_view() },
                ),
                ..old(self).deep_view()
            }),
    {
        let mut stored = comment.duplicate();
        stored.id = Some(new_id);
        stored.created_at = now;
        let ghost pushed = stored.deep_view();
        self.trip_comments.push(stored);
        proof {
            assert(pushed =~= (TripCommentV {
                id: Some(pushed.id->0),
                created_at: now,
                ..comment.deep_view()
            }));
            assert(self.trip_comments.deep_view() =~= old(self).deep_view().trip_comments.push(
                pushed,
            ));
            assert(self.deep_view() =~= (StoreV {
                trip_comments: old(self).deep_view().trip_comments.push(pushed),
                ..old(self).deep_view()
            }));
        }
    }

    /// The comments on a trip in a destination, newest first. The trip must
    /// exist in that destination and not be soft-deleted.
    pub fn fetch_trip_comments_by_destination(&self, trip_id: &String, destination: &String) -> (r:
        Result<Vec<TripComment>, Error>)
        ensures
            (exists|i: int|
                0 <= i < self.deep_view().trips.len() && trip_readable(
                    #[trigger] self.deep_view().trips[i],
                    trip_id@,
                    destination@,
                )) ==> (r matches Ok(v) && v.deep_view() == sort_comments(
                comments_of(self.deep_view().trip_comments, trip_id@),
            )),
            !(exists|i: int|
                0 <= i < self.deep_view().trips.len() && trip_readable(
                    #[trigger] self.deep_view().trips[i],
                    trip_id@,
                    destination@,
                )) ==> r == Err::<Vec<TripComment>, Error>(Error::NotFound),
    {
        let ghost dv = self.trips.deep_view();
        let mut exists_readable = false;
        let mut i: usize = 0;
        while i < self.trips.len()
            invariant
                i <= self.trips.len(),
                dv == self.trips.deep_view(),
                exists_readable ==> exists|j: int|
                    0 <= j < dv.len() && trip_readable(#[trigger] dv[j], trip_id@, destination@),
                !exists_readable ==> forall|j: int|
                    0 <= j < i ==> !trip_readable(#[trigger] dv[j], trip_id@, destination@),
            decreases self.trips.len() - i,
        {
            proof {
                assert(dv[i as int] == self.trips@[i as int].deep_view());
            }
            let id_matches = match &self.trips[i].id {
                Some(tid) => *tid == *trip_id,
                None => false,
            };
            if id_matches && self.trips[i].destination == *destination
                && self.trips[i].deletion_date.is_none() {
                proof {
                    assert(trip_readable(dv[i as int], trip_id@, destination@));
                }
                exists_readable = true;
            }
            i = i + 1;
        }
        proof {
            assert forall|j: int|
                0 <= j < self.deep_view().trips.len() && !exists_readable implies !trip_readable(
                #[trigger] self.deep_view().trips[j],
                trip_id@,
                destination@,
            ) by {
                assert(self.deep_view().trips[j] == dv[j]);
            }
            if exists_readable {
                let w = choose|j: int|
                    0 <= j < dv.len() && trip_readable(dv[j], trip_id@, destination@);
                assert(self.deep_view().trips[w] == dv[w]);
                assert(trip_readable(self.deep_view().trips[w], trip_id@, destination@));
            }
        }
        if !exists_readable {
            return Err(Error::NotFound);
        }

        // Collect this trip's comments, in storage order.
        let ghost cv = self.trip_comments.deep_view();
        proof {
            assert(cv.skip(0) =~= cv);
        }
        let mut picked: Vec<TripComment> = Vec::new();
        let mut c: usize = 0;
        while c < self.trip_comments.len()
            invariant
                c <= self.trip_comments.len(),
                cv == self.trip_comments.deep_view(),
                comments_of(cv, trip_id@) == picked.deep_view() + comments_of(
                    cv.skip(c as int),
                    trip_id@,
                ),
            decreases self.trip_comments.len() - c,
        {
            proof {
                assert(cv[c as int] == self.trip_comments@[c as int].deep_view());
                assert(cv.skip(c as int)[0] == cv[c as int]);
                assert(cv.skip(c as int).drop_first() =~= cv.skip(c as int + 1));
            }
            if self.trip_comments[c].trip_id == *trip_id {
                let ghost before = picked.deep_view();
                picked.push(self.trip_comments[c].duplicate());
                proof {
                    assert(picked.deep_view() =~= before.push(cv[c as int]));
                    assert((before + (seq![cv[c as int]] + comments_of(
                        cv.skip(c as int + 1),
                        trip_id@,
                    ))) =~= (before.push(cv[c as int]) + comments_of(
                        cv.skip(c as int + 1),
                        trip_id@,
                    )));
                }
            }
            c = c + 1;
        }
        proof {
            assert(cv.skip(c as int) =~= Seq::<TripCommentV>::empty());
            assert(picked.deep_view() + Seq::<TripCommentV>::empty() =~= picked.deep_view());
        }

        // Insertion sort, newest first.
        let ghost pv = picked.deep_view();
        let mut out: Vec<TripComment> = Vec::new();
        let mut k: usize = 0;
        while k < picked.len()
            invariant
                k <= picked.len(),
                pv == picked.deep_view(),
                out.deep_view() == sort_comments(pv.take(k as int)),
            decreases picked.len() - k,
        {
            proof {
                assert(pv[k as int] == picked@[k as int].deep_view());
            }
            let t = picked[k].duplicate();
            let ghost tdv = t.deep_view();
            let mut pos: usize = 0;
            let mut found = false;
            while !found && pos < out.len()
                invariant
                    pos <= out.len(),
                    tdv == t.deep_view(),
                    found ==> pos < out.len() && comment_le(tdv, out.deep_view()[pos as int]),
                    forall|j: int|
                        0 <= j < pos ==> !comment_le(tdv, #[trigger] out.deep_view()[j]),
                decreases out.len() - pos, (if found {
                    0int
                } else {
                    1int
                }),
            {
                proof {
                    assert(out.deep_view()[pos as int] == out@[pos as int].deep_view());
                }
                if t.created_at >= out[pos].created_at {
                    found = true;
                } else {
                    pos = pos + 1;
                }
            }
            let ghost out_before = out.deep_view();
            proof {
                lemma_insert_comment_at(out_before, tdv, pos as int);
            }
            out.insert(pos, t);
            proof {
                assert(out.deep_view().len() == out@.len());
                assert(forall|j: int|
                    0 <= j < out@.len() ==> #[trigger] out.deep_view()[j]
                        == out@[j].deep_view());
                assert(out.deep_view() =~= out_before.insert(pos as int, tdv));
                assert(pv.take(k as int + 1).drop_last() =~= pv.take(k as int));
                assert(pv.take(k as int + 1).last() == pv[k as int]);
            }
            k = k + 1;
        }
        proof {
            assert(pv.take(pv.len() as int) =~= pv);
        }
        Ok(out)
    }
}

/// When nothing is deletable, a targeted deletion changes nothing.
proof fn lemma_delete_trip_absent(trips: Seq<TripV>, trip_id: Seq<char>, user: Seq<char>, now: i64)
    requires
        forall|j: int| 0 <= j < trips.len() ==> !deletable(trips[j], trip_id, user),
    ensures
        delete_trip_first(trips, trip_id, user, now) =~= trips,
    decreases trips.len(),
{
    if trips.len() > 0 {
        let rest = trips.drop_first();
        assert(forall|j: int| 0 <= j < rest.len() ==> rest[j] == trips[j + 1]);
        lemma_delete_trip_absent(rest, trip_id, user, now);
        assert(seq![trips[0]] + rest =~= trips);
    }
}

// ---------------------------------------------------------------------------
// Gateway dispatch and the storage interface
// ---------------------------------------------------------------------------

impl Database {
    /// Record a new trip under a fresh identifier and sweep the user's
    /// other future trips in the destination.
    pub fn insert_trip_record(&mut self, trip: &Trip, new_id: String, now: i64) -> (r: Result<
        (),
        Error,
    >)
        ensures
            *old(self) is Stub ==> r == Err::<(), Error>(Error::NotSupported) && *final(self)
                == *old(self),
            old(self).deep_view() matches Some(s) ==> r is Ok && final(self).deep_view() == Some(
                StoreV {
                    trips: sweep_trips(
                        s.trips.push(TripV { id: Some(new_id@), ..trip.deep_view() }),
                        trip.user_id@,
                        trip.destination@,
                        Some(new_id@),
                        now,
                    ),
                    ..s
                },
            ),
    {
        match self {
            Database::Memory(store) => {
                store.insert_trip(trip, new_id, now);
                Ok(())
            },
            Database::Stub => Err(Error::NotSupported),
        }
    }
}

/// The storage interface the trip and invitation flows call: every backend
/// answers every verb, an unsupported one with an explicit error.
pub trait DatabaseTrait {
    fn insert_trip(&mut self, trip: &Trip) -> Result<(), Error>;

    fn fetch_trips_by_date_and_destination(
        &self,
        destination: &String,
        current_user_id: &String,
        today: i64,
    ) -> Result<Vec<Trip>, Error>;

    fn mark_user_trips_as_deleted_in_destination(
        &mut self,
        user_id: &String,
        destination: &String,
        except_trip_id: Option<&String>,
    ) -> Result<(), Error>;

    fn delete_trip(&mut self, trip_id: &String, user_id: &String) -> Result<(), Error>;

    fn create_trip_comment(&mut self, comment: &TripComment) -> Result<(), Error>;

    fn fetch_trip_comments_by_destination(&self, trip_id: &String, destination: &String) -> Result<
        Vec<TripComment>,
        Error,
    >;

    fn generate_invite_token(&mut self, creator_id: String) -> Result<
        crate::invite::InvitationToken,
        Error,
    >;
}

impl DatabaseTrait for Database {
    fn insert_trip(&mut self, trip: &Trip) -> Result<(), Error> {
        let new_id = crate::external::object_id_new();
        let now = crate::external::now_millis();
        self.insert_trip_record(trip, new_id, now)
    }

    fn fetch_trips_by_date_and_destination(
        &self,
        destination: &String,
        current_user_id: &String,
        today: i64,
    ) -> Result<Vec<Trip>, Error> {
        match self {
            Database::Memory(store) => Ok(
                store.fetch_trips_by_date_and_destination(destination, current_user_id, today),
            ),
            Database::Stub => Err(Error::NotSupported),
        }
    }

    fn mark_user_trips_as_deleted_in_destination(
        &mut self,
        user_id: &String,
        destination: &String,
        except_trip_id: Option<&String>,
    ) -> Result<(), Error> {
        let now = crate::external::now_millis();
        match self {
            Database::Memory(store) => {
                store.mark_user_trips_as_deleted_in_destination(
                    user_id,
                    destination,
                    except_trip_id,
                    now,
                );
                Ok(())
            },
            Database::Stub => Err(Error::NotSupported),
        }
    }

    fn delete_trip(&mut self, trip_id: &String, user_id: &String) -> Result<(), Error> {
        let now = crate::external::now_millis();
        match self {
            Database::Memory(store) => store.delete_trip(trip_id, user_id, now),
            Database::Stub => Err(Error::NotSupported),
        }
    }

    fn create_trip_comment(&mut self, comment: &TripComment) -> Result<(), Error> {
        let new_id = crate::external::object_id_new();
        let now = crate::external::now_millis();
        match self {
            Database::Memory(store) => {
                store.create_trip_comment(comment, new_id, now);
                Ok(())
            },
            Database::Stub => Err(Error::NotSupported),
        }
    }

    fn fetch_trip_comments_by_destination(&self, trip_id: &String, destination: &String) -> Result<
        Vec<TripComment>,
        Error,
    > {
        match self {
            Database::Memory(store) => store.fetch_trip_comments_by_destination(
                trip_id,
                destination,
            ),
            Database::Stub => Err(Error::NotSupported),
        }
    }

    fn generate_invite_token(&mut self, creator_id: String) -> Result<
        crate::invite::InvitationToken,
        Error,
    > {
        crate::invite::generate_invite_token(self, creator_id)
    }
}

} // verus!
