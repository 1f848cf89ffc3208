//! The window registry: the managed windows, in the order of their adoption.

use vstd::prelude::*;

use crate::window::{Geometry, RedWindow, Window};

verus! {

/// Whether some record of `records` answers to `id`, as client or as frame.
pub open spec fn registered(records: Seq<RedWindow>, id: Window) -> bool {
    exists|i: int| 0 <= i < records.len() && (#[trigger] records[i]).answers_to(id)
}

/// Index of the first record of `records` that answers to `id`,
/// or the length of `records` where none does.
pub open spec fn position_of(records: Seq<RedWindow>, id: Window) -> int
    decreases records.len(),
{
    if records.len() == 0 {
        0
    } else if records[0].answers_to(id) {
        0
    } else {
        1 + position_of(records.drop_first(), id)
    }
}

/// The record that a lookup of `id` finds: the first that answers to it.
pub open spec fn found(records: Seq<RedWindow>, id: Window) -> Option<RedWindow> {
    if registered(records, id) {
        Some(records[position_of(records, id)])
    } else {
        None
    }
}

/// Whether some record of `records` has `client` as its client window.
pub open spec fn has_client(records: Seq<RedWindow>, client: Window) -> bool {
    exists|i: int| 0 <= i < records.len() && (#[trigger] records[i]).window == client
}

/// Whether `a` and `b` have no identifier in common.
pub open spec fn apart(a: RedWindow, b: RedWindow) -> bool {
    &&& a.window != b.window
    &&& a.window != b.frame_window
    &&& a.frame_window != b.window
    &&& a.frame_window != b.frame_window
}

/// The record whose client is `client`, where there is one. Among
/// distinct records there is at most one.
pub open spec fn record_of(records: Seq<RedWindow>, client: Window) -> Option<RedWindow> {
    if exists|r: RedWindow| records.contains(r) && r.window == client {
        Some(choose|r: RedWindow| records.contains(r) && r.window == client)
    } else {
        None
    }
}

/// The invariant of a registry: every record is well formed, and no
/// two records share an identifier. So each client has at most one
/// record, and each identifier names at most one record.
pub open spec fn distinct_records(records: Seq<RedWindow>) -> bool {
    &&& forall|i: int| 0 <= i < records.len() ==> (#[trigger] records[i]).well_formed()
    &&& forall|i: int, j: int|
        0 <= i < j < records.len() ==> apart(#[trigger] records[i], #[trigger] records[j])
}

/// What `records` holds once every record of `client` has left it.
pub open spec fn without_client(records: Seq<RedWindow>, client: Window) -> Seq<RedWindow> {
    records.filter(|r: RedWindow| r.window != client)
}

/// `records` with every record of the frame `frame` moved to (`x`, `y`),
/// and nothing else changed. Among distinct records that is at most one.
pub open spec fn moved(records: Seq<RedWindow>, frame: Window, x: i16, y: i16) -> Seq<RedWindow> {
    Seq::new(
        records.len(),
        |i: int|
            if records[i].frame_window == frame {
                RedWindow { x, y, ..records[i] }
            } else {
                records[i]
            },
    )
}

/// Whether a registry holding `records` may adopt `client` under
/// `frame`: neither is registered, neither is the null window, and
/// they are two windows.
pub open spec fn adoptable(records: Seq<RedWindow>, client: Window, frame: Window) -> bool {
    &&& !registered(records, client)
    &&& !registered(records, frame)
    &&& client != 0
    &&& frame != 0
    &&& client != frame
}

/// `position_of` stays within the sequence, points at a record that
/// answers to `id` exactly when one is registered, and passes over none.
pub proof fn lemma_position_of(records: Seq<RedWindow>, id: Window)
    ensures
        0 <= position_of(records, id) <= records.len(),
        registered(records, id) <==> position_of(records, id) < records.len(),
        position_of(records, id) < records.len() ==> records[position_of(records, id)].answers_to(
            id,
        ),
        forall|k: int| 0 <= k < position_of(records, id) ==> !(#[trigger] records[k]).answers_to(id),
    decreases records.len(),
{
    if records.len() == 0 {
    } else if records[0].answers_to(id) {
    } else {
        let rest = records.drop_first();
        lemma_position_of(rest, id);
        if registered(rest, id) {
            let i = choose|i: int| 0 <= i < rest.len() && (#[trigger] rest[i]).answers_to(id);
            assert(records[i + 1].answers_to(id));
        }
        if registered(records, id) {
            let i = choose|i: int| 0 <= i < records.len() && (#[trigger] records[i]).answers_to(id);
            assert(rest[i - 1].answers_to(id));
        }
        assert forall|k: int| 0 <= k < position_of(records, id) implies !(#[trigger] records[k]).answers_to(
            id,
        ) by {
            if k > 0 {
                assert(records[k] == rest[k - 1]);
            }
        }
    }
}

/// The managed windows. Looked up by client or by frame identifier.
pub struct WindowRegistry {
    records: Vec<RedWindow>,
}

impl View for WindowRegistry {
    type V = Seq<RedWindow>;

    closed spec fn view(&self) -> Seq<RedWindow> {
        self.records@
    }
}

impl WindowRegistry {
    /// The invariant that every operation keeps.
    pub open spec fn wf(&self) -> bool {
        distinct_records(self@)
    }

    /// Whether `id` names a managed window, as client or as frame.
    pub open spec fn manages(&self, id: Window) -> bool {
        registered(self@, id)
    }

    pub fn new() -> (registry: Self)
        ensures
            registry@ == Seq::<RedWindow>::empty(),
            registry.wf(),
    {
        WindowRegistry { records: Vec::new() }
    }

    /// Number of managed windows.
    pub fn len(&self) -> (n: usize)
        ensures
            n == self@.len(),
    {
        self.records.len()
    }

    /// The record at `index` in adoption order.
    pub fn get(&self, index: usize) -> (record: Option<RedWindow>)
        ensures
            record == if index < self@.len() {
                Some(self@[index as int])
            } else {
                None
            },
    {
        if index < self.records.len() {
            Some(self.records[index])
        } else {
            None
        }
    }

    /// Index of the first record that answers to `id`.
    fn position(&self, id: Window) -> (at: usize)
        ensures
            at == position_of(self@, id),
            at <= self@.len(),
            at < self@.len() <==> registered(self@, id),
    {
        let mut i: usize = 0;
        while i < self.records.len()
            invariant
                i <= self.records@.len(),
                forall|k: int| 0 <= k < i ==> !(#[trigger] self.records@[k]).answers_to(id),
            ensures
                i <= self.records@.len(),
                i < self.records@.len() ==> self.records@[i as int].answers_to(id),
            decreases self.records@.len() - i,
        {
            if self.records[i].is_named(id) {
                break;
            }
            i += 1;
        }
        proof {
            lemma_position_of(self@, id);
            let p = position_of(self@, id);
            if p < i {
                assert(self.records@[p].answers_to(id));
            }
            if i < p {
                assert(self.records@[i as int].answers_to(id));
            }
        }
        i
    }

    /// Stores a record for `client` wrapped in `frame` and hands a copy back.
    ///
    /// The caller has to know that neither `client` nor `frame` is
    /// registered yet, and that they are two windows, neither the null window.
    pub fn adopt(&mut self, client: Window, frame: Window, geometry: &Geometry) -> (record: RedWindow)
        requires
            old(self).wf(),
            adoptable(old(self)@, client, frame),
        ensures
            record == RedWindow::of(client, frame, *geometry),
            final(self)@ == old(self)@.push(record),
            final(self).wf(),
    {
        let record = RedWindow::new(client, frame, geometry);
        proof {
            lemma_adopt_keeps_distinct(self@, client, frame, *geometry);
        }
        self.records.push(record);
        record
    }

    /// The record that `id` names, as client or as frame.
    pub fn lookup(&self, id: Window) -> (record: Option<&RedWindow>)
        ensures
            record.is_some() == self.manages(id),
            match record {
                Some(r) => Some(*r) == found(self@, id),
                None => found(self@, id).is_none(),
            },
    {
        let at = self.position(id);
        if at < self.records.len() {
            Some(&self.records[at])
        } else {
            None
        }
    }

    /// The record that `id` names, for the caller to change. What the
    /// caller writes takes the record's place in the registry.
    pub fn lookup_mut(&mut self, id: Window) -> (record: Option<&mut RedWindow>)
        ensures
            record.is_some() == old(self).manages(id),
            match record {
                Some(r) => Some(*r) == found(old(self)@, id) && final(self)@ == old(self)@.update(
                    position_of(old(self)@, id),
                    *final(r),
                ),
                None => final(self)@ == old(self)@,
            },
    {
        let at = self.position(id);
        if at < self.records.len() {
            Some(&mut self.records[at])
        } else {
            None
        }
    }

    /// Writes the position (`x`, `y`) into the record of the frame
    /// `frame`. Changes nothing where no record has that frame.
    pub fn move_frame(&mut self, frame: Window, x: i16, y: i16)
        requires
            old(self).wf(),
        ensures
            final(self)@ == moved(old(self)@, frame, x, y),
            final(self).wf(),
    {
        let mut i: usize = 0;
        while i < self.records.len()
            invariant
                i <= self.records@.len(),
                self.records@.len() == old(self).records@.len(),
                forall|k: int|
                    0 <= k < i ==> self.records@[k] == moved(old(self).records@, frame, x, y)[k],
                forall|k: int|
                    i <= k < self.records@.len() ==> self.records@[k] == old(self).records@[k],
            decreases self.records@.len() - i,
        {
            let mut record = self.records[i];
            if record.frame_window == frame {
                record.x = x;
                record.y = y;
                self.records.set(i, record);
            }
            i += 1;
        }
        proof {
            assert(self.records@ =~= moved(old(self).records@, frame, x, y));
            lemma_move_keeps_distinct(old(self)@, frame, x, y);
        }
    }

    /// Removes the record whose client is `client` and hands it back.
    pub fn release(&mut self, client: Window) -> (record: Option<RedWindow>)
        requires
            old(self).wf(),
        ensures
            final(self).wf(),
            final(self)@ == without_client(old(self)@, client),
            record == record_of(old(self)@, client),
            record.is_some() == has_client(old(self)@, client),
            !has_client(final(self)@, client),
            record is Some ==> final(self)@.len() + 1 == old(self)@.len(),
            record is None ==> final(self)@ == old(self)@,
    {
        let mut i: usize = 0;
        while i < self.records.len()
            invariant
                i <= self.records@.len(),
                self.records@ == old(self).records@,
                distinct_records(self.records@),
                forall|k: int| 0 <= k < i ==> (#[trigger] self.records@[k]).window != client,
            decreases self.records@.len() - i,
        {
            if self.records[i].window == client {
                proof {
                    lemma_release_at(self@, client, i as int);
                    lemma_record_of(self@, client, self.records@[i as int]);
                }
                let record = self.records.remove(i);
                return Some(record);
            }
            i += 1;
        }
        proof {
            lemma_release_absent(self@, client);
            lemma_no_record_of(self@, client);
        }
        None
    }
}

/// A move changes no identifier: the records stay distinct, and each
/// identifier names a record after the move exactly when it did before.
pub proof fn lemma_move_keeps_distinct(records: Seq<RedWindow>, frame: Window, x: i16, y: i16)
    requires
        distinct_records(records),
    ensures
        distinct_records(moved(records, frame, x, y)),
        forall|id: Window|
            registered(moved(records, frame, x, y), id) == registered(records, id),
        forall|id: Window|
            position_of(moved(records, frame, x, y), id) == position_of(records, id),
{
    let after = moved(records, frame, x, y);
    assert forall|i: int| 0 <= i < after.len() implies (#[trigger] after[i]).well_formed() by {
        assert(records[i].well_formed());
    }
    assert forall|i: int, j: int| 0 <= i < j < after.len() implies apart(
        #[trigger] after[i],
        #[trigger] after[j],
    ) by {
        assert(apart(records[i], records[j]));
    }
    assert forall|id: Window| registered(after, id) == registered(records, id) by {
        if registered(after, id) {
            let i = choose|i: int| 0 <= i < after.len() && (#[trigger] after[i]).answers_to(id);
            assert(records[i].answers_to(id));
        }
        if registered(records, id) {
            let i = choose|i: int| 0 <= i < records.len() && (#[trigger] records[i]).answers_to(id);
            assert(after[i].answers_to(id));
        }
    }
    assert forall|id: Window| position_of(after, id) == position_of(records, id) by {
        lemma_move_keeps_positions(records, frame, x, y, id);
    }
}

/// A move leaves each identifier at the place where it was found.
pub proof fn lemma_move_keeps_positions(
    records: Seq<RedWindow>,
    frame: Window,
    x: i16,
    y: i16,
    id: Window,
)
    ensures
        position_of(moved(records, frame, x, y), id) == position_of(records, id),
    decreases records.len(),
{
    let after = moved(records, frame, x, y);
    if records.len() > 0 {
        assert(after[0].answers_to(id) == records[0].answers_to(id));
        assert(after.drop_first() =~= moved(records.drop_first(), frame, x, y));
        lemma_move_keeps_positions(records.drop_first(), frame, x, y, id);
    }
}

/// Adopting an adoptable client keeps the records distinct.
pub proof fn lemma_adopt_keeps_distinct(
    records: Seq<RedWindow>,
    client: Window,
    frame: Window,
    geometry: Geometry,
)
    requires
        distinct_records(records),
        adoptable(records, client, frame),
    ensures
        distinct_records(records.push(RedWindow::of(client, frame, geometry))),
{
    let record = RedWindow::of(client, frame, geometry);
    let after = records.push(record);
    assert forall|i: int, j: int| 0 <= i < j < after.len() implies apart(
        #[trigger] after[i],
        #[trigger] after[j],
    ) by {
        assert(after[i] == records[i]);
        if j == records.len() {
            if !apart(records[i], record) {
                assert(records[i].answers_to(client) || records[i].answers_to(frame));
            }
        } else {
            assert(after[j] == records[j]);
        }
    }
    assert forall|i: int| 0 <= i < after.len() implies (#[trigger] after[i]).well_formed() by {
        if i < records.len() {
            assert(after[i] == records[i]);
        }
    }
}

/// Where no record has `client`, releasing it changes nothing.
pub proof fn lemma_release_absent(records: Seq<RedWindow>, client: Window)
    requires
        forall|k: int| 0 <= k < records.len() ==> (#[trigger] records[k]).window != client,
    ensures
        without_client(records, client) == records,
        !has_client(records, client),
    decreases records.len(),
{
    let keep = |r: RedWindow| r.window != client;
    reveal(Seq::filter);
    if records.len() > 0 {
        let front = records.drop_last();
        assert forall|k: int| 0 <= k < front.len() implies (#[trigger] front[k]).window != client by {
            assert(front[k] == records[k]);
        }
        lemma_release_absent(front, client);
        assert(keep(records.last()));
        assert(front.push(records.last()) =~= records);
    }
}

/// Where the records are distinct and the one at `at` has `client`,
/// releasing `client` removes exactly that record.
pub proof fn lemma_release_at(records: Seq<RedWindow>, client: Window, at: int)
    requires
        distinct_records(records),
        0 <= at < records.len(),
        records[at].window == client,
    ensures
        without_client(records, client) == records.remove(at),
        distinct_records(records.remove(at)),
        !has_client(records.remove(at), client),
        has_client(records, client),
        records.contains(records[at]),
    decreases records.len(),
{
    let keep = |r: RedWindow| r.window != client;
    let after = records.remove(at);
    reveal(Seq::filter);
    assert forall|k: int| 0 <= k < after.len() implies (#[trigger] after[k]).window != client by {
        if k < at {
            assert(after[k] == records[k]);
        } else {
            assert(after[k] == records[k + 1]);
        }
    }
    assert forall|i: int, j: int| 0 <= i < j < after.len() implies apart(
        #[trigger] after[i],
        #[trigger] after[j],
    ) by {
        let oi = if i < at { i } else { i + 1 };
        let oj = if j < at { j } else { j + 1 };
        assert(after[i] == records[oi]);
        assert(after[j] == records[oj]);
    }
    assert forall|i: int| 0 <= i < after.len() implies (#[trigger] after[i]).well_formed() by {
        let oi = if i < at { i } else { i + 1 };
        assert(after[i] == records[oi]);
    }
    let front = records.drop_last();
    if at == records.len() - 1 {
        assert(front =~= after);
        lemma_release_absent(front, client);
        assert(!keep(records.last()));
    } else {
        assert(distinct_records(front)) by {
            assert forall|i: int| 0 <= i < front.len() implies (#[trigger] front[i]).well_formed() by {
                assert(front[i] == records[i]);
            }
            assert forall|i: int, j: int| 0 <= i < j < front.len() implies apart(
                #[trigger] front[i],
                #[trigger] front[j],
            ) by {
                assert(front[i] == records[i]);
                assert(front[j] == records[j]);
            }
        }
        lemma_release_at(front, client, at);
        assert(keep(records.last())) by {
            assert(apart(records[at], records[records.len() - 1]));
        }
        assert(front.remove(at).push(records.last()) =~= after);
    }
    assert(!has_client(after, client));
    assert(records[at].window == client);
}

/// Among distinct records, both identifiers of a record find that record.
pub proof fn lemma_both_identifiers_find_the_record(records: Seq<RedWindow>, at: int)
    requires
        distinct_records(records),
        0 <= at < records.len(),
    ensures
        found(records, records[at].window) == Some(records[at]),
        found(records, records[at].frame_window) == Some(records[at]),
{
    let record = records[at];
    assert(record.answers_to(record.window));
    assert(record.answers_to(record.frame_window));
    lemma_position_of(records, record.window);
    lemma_position_of(records, record.frame_window);
    let by_client = position_of(records, record.window);
    let by_frame = position_of(records, record.frame_window);
    if by_client < at {
        assert(apart(records[by_client], records[at]));
    }
    if by_frame < at {
        assert(apart(records[by_frame], records[at]));
    }
}

/// Among distinct records, the record of a client is the one that has it.
pub proof fn lemma_record_of(records: Seq<RedWindow>, client: Window, record: RedWindow)
    requires
        distinct_records(records),
        records.contains(record),
        record.window == client,
    ensures
        record_of(records, client) == Some(record),
{
    let chosen = choose|r: RedWindow| records.contains(r) && r.window == client;
    let i = choose|i: int| 0 <= i < records.len() && records[i] == record;
    let j = choose|j: int| 0 <= j < records.len() && records[j] == chosen;
    if i < j {
        assert(apart(records[i], records[j]));
    }
    if j < i {
        assert(apart(records[j], records[i]));
    }
}

/// Where no record has `client`, there is no record of it.
pub proof fn lemma_no_record_of(records: Seq<RedWindow>, client: Window)
    requires
        !has_client(records, client),
    ensures
        record_of(records, client).is_none(),
{
    if exists|r: RedWindow| records.contains(r) && r.window == client {
        let r = choose|r: RedWindow| records.contains(r) && r.window == client;
        let i = choose|i: int| 0 <= i < records.len() && records[i] == r;
        assert(records[i].window == client);
    }
}

/// Whether no two records of `records` have the same client.
pub open spec fn one_record_per_client(records: Seq<RedWindow>) -> bool {
    forall|i: int, j: int|
        0 <= i < j < records.len() ==> (#[trigger] records[i]).window != (#[trigger] records[j]).window
}

/// Whatever the frame, the adoption of a client that is not registered
/// keeps one record per client, and the new record is the only one of
/// its client.
pub proof fn lemma_adoption_keeps_one_record_per_client(
    records: Seq<RedWindow>,
    client: Window,
    frame: Window,
    geometry: Geometry,
)
    requires
        one_record_per_client(records),
        !registered(records, client),
    ensures
        one_record_per_client(records.push(RedWindow::of(client, frame, geometry))),
        has_client(records.push(RedWindow::of(client, frame, geometry)), client),
        forall|i: int|
            0 <= i < records.len() ==> records.push(RedWindow::of(client, frame, geometry))[i].window
                != client,
{
    let record = RedWindow::of(client, frame, geometry);
    let after = records.push(record);
    assert forall|i: int| 0 <= i < records.len() implies after[i].window != client by {
        if records[i].window == client {
            assert(records[i].answers_to(client));
        }
    }
    assert forall|i: int, j: int| 0 <= i < j < after.len() implies (#[trigger] after[i]).window != (
    #[trigger] after[j]).window by {
        assert(after[i] == records[i]);
        if j < records.len() {
            assert(after[j] == records[j]);
        }
    }
    assert(after[records.len() as int].window == client);
}

/// Whatever the frame, where each record has a client and a frame
/// that differ, the adoption of a client under a frame other than
/// itself keeps it so.
pub proof fn lemma_adoption_keeps_client_and_frame_apart(
    records: Seq<RedWindow>,
    client: Window,
    frame: Window,
    geometry: Geometry,
)
    requires
        forall|i: int| 0 <= i < records.len() ==> (#[trigger] records[i]).window != records[i].frame_window,
        client != frame,
    ensures
        forall|i: int|
            0 <= i <= records.len() ==> (#[trigger] records.push(
                RedWindow::of(client, frame, geometry),
            )[i]).window != records.push(RedWindow::of(client, frame, geometry))[i].frame_window,
{
    let after = records.push(RedWindow::of(client, frame, geometry));
    assert forall|i: int| 0 <= i <= records.len() implies (#[trigger] after[i]).window
        != after[i].frame_window by {
        if i < records.len() {
            assert(after[i] == records[i]);
        }
    }
}

/// Whatever the frame, a lookup of a client that was not registered
/// finds, after its adoption, the new record.
pub proof fn lemma_adopted_record_is_found(
    records: Seq<RedWindow>,
    client: Window,
    frame: Window,
    geometry: Geometry,
)
    requires
        !registered(records, client),
    ensures
        found(records.push(RedWindow::of(client, frame, geometry)), client) == Some(
            RedWindow::of(client, frame, geometry),
        ),
{
    let record = RedWindow::of(client, frame, geometry);
    let after = records.push(record);
    assert(after[records.len() as int].answers_to(client));
    lemma_position_of(after, client);
    let at = position_of(after, client);
    if at < records.len() {
        assert(after[at] == records[at]);
        assert(records[at].answers_to(client));
    }
}

/// One operation on a registry.
pub enum RegistryOp {
    Adopt { client: Window, frame: Window, geometry: Geometry },
    Release { client: Window },
}

/// What `op` makes of `records`.
pub open spec fn applied(records: Seq<RedWindow>, op: RegistryOp) -> Seq<RedWindow> {
    match op {
        RegistryOp::Adopt { client, frame, geometry } => records.push(
            RedWindow::of(client, frame, geometry),
        ),
        RegistryOp::Release { client } => without_client(records, client),
    }
}

/// What a registry holds after the operations `ops`, begun empty.
pub open spec fn replayed(ops: Seq<RegistryOp>) -> Seq<RedWindow>
    decreases ops.len(),
{
    if ops.len() == 0 {
        Seq::empty()
    } else {
        applied(replayed(ops.drop_last()), ops.last())
    }
}

/// Whether each adoption among `ops` meets what `adopt` asks of its
/// caller at the time that it is made.
pub open spec fn admissible(ops: Seq<RegistryOp>) -> bool
    decreases ops.len(),
{
    if ops.len() == 0 {
        true
    } else {
        &&& admissible(ops.drop_last())
        &&& match ops.last() {
            RegistryOp::Adopt { client, frame, geometry } => adoptable(
                replayed(ops.drop_last()),
                client,
                frame,
            ),
            RegistryOp::Release { client } => true,
        }
    }
}

/// Releasing a client keeps the records distinct, and leaves none of it.
pub proof fn lemma_release_keeps_distinct(records: Seq<RedWindow>, client: Window)
    requires
        distinct_records(records),
    ensures
        distinct_records(without_client(records, client)),
        !has_client(without_client(records, client), client),
{
    if has_client(records, client) {
        let at = choose|i: int| 0 <= i < records.len() && (#[trigger] records[i]).window == client;
        lemma_release_at(records, client, at);
    } else {
        lemma_release_absent(records, client);
    }
}

/// Whatever adoptions and releases a registry has seen, it holds at
/// most one record for each client, and the client and the frame of
/// each record are two different windows.
pub proof fn lemma_history_keeps_distinct(ops: Seq<RegistryOp>)
    requires
        admissible(ops),
    ensures
        distinct_records(replayed(ops)),
        forall|i: int, j: int|
            0 <= i < j < replayed(ops).len() ==> replayed(ops)[i].window != replayed(ops)[j].window,
        forall|i: int|
            0 <= i < replayed(ops).len() ==> replayed(ops)[i].window != replayed(
                ops,
            )[i].frame_window,
    decreases ops.len(),
{
    if ops.len() > 0 {
        let before = replayed(ops.drop_last());
        lemma_history_keeps_distinct(ops.drop_last());
        match ops.last() {
            RegistryOp::Adopt { client, frame, geometry } => {
                lemma_adopt_keeps_distinct(before, client, frame, geometry);
            },
            RegistryOp::Release { client } => {
                lemma_release_keeps_distinct(before, client);
            },
        }
    }
    let after = replayed(ops);
    assert forall|i: int| 0 <= i < after.len() implies after[i].window != after[i].frame_window by {
        assert(after[i].well_formed());
    }
    assert forall|i: int, j: int| 0 <= i < j < after.len() implies after[i].window
        != after[j].window by {
        assert(apart(after[i], after[j]));
    }
}

} // verus!
