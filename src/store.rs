use vstd::prelude::*;

use crate::error::PersonError;
use crate::http::{create_reply, list_reply, Body, Response, CREATED, OK};
use crate::model::{created_from, CreatePersonDto, Person};

verus! {

/// The largest id the `person` table can hold: its id column is a signed
/// 32-bit integer.
pub const MAX_ID: i64 = 2147483647;

/// A storage engine that keeps the `person` table in memory. Like an
/// auto-increment column it assigns ids 1, 2, 3, ... in order of insertion,
/// never twice, and rejects an insert once the id column is exhausted.
pub struct MemoryStore {
    rows: Vec<Person>,
    next_id: i64,
}

impl View for MemoryStore {
    type V = Seq<Person>;

    /// The rows of the table, in the order in which they were inserted.
    closed spec fn view(&self) -> Seq<Person> {
        self.rows@
    }
}

impl MemoryStore {
    /// The id that the next insert will assign.
    pub closed spec fn next_id(&self) -> int {
        self.next_id as int
    }

    /// Every id stored lies in `1 .. next_id`, in increasing order, and the
    /// counter has not run past the id column.
    pub closed spec fn wf(&self) -> bool {
        &&& 1 <= self.next_id <= MAX_ID + 1
        &&& forall|i: int| 0 <= i < self.rows@.len() ==> 1 <= #[trigger] self.rows@[i].id < self.next_id
        &&& forall|i: int, j: int|
            0 <= i < j < self.rows@.len() ==> #[trigger] self.rows@[i].id < #[trigger] self.rows@[j].id
    }

    /// An empty table whose first insert gets id 1.
    pub fn new() -> (r: MemoryStore)
        ensures
            r.wf(),
            r@.len() == 0,
            r.next_id() == 1,
    {
        MemoryStore { rows: Vec::new(), next_id: 1 }
    }

    /// Stores `input` under the next id and returns the stored person.
    pub fn insert_person(&mut self, input: CreatePersonDto) -> (r: Result<Person, PersonError>)
        requires
            old(self).wf(),
        ensures
            final(self).wf(),
            inserted(*old(self), input, *final(self), r),
    {
        if self.next_id > MAX_ID {
            return Err(PersonError::new("the id column is exhausted"));
        }
        let id = self.next_id as i32;
        let p = Person::from_input(input, id);
        let stored = p.duplicate();
        self.rows.push(stored);
        self.next_id = self.next_id + 1;
        Ok(p)
    }

    /// Every stored person, in storage order.
    pub fn list_persons(&self) -> (r: Vec<Person>)
        ensures
            r@ == self@,
    {
        let mut r: Vec<Person> = Vec::new();
        let mut i: usize = 0;
        while i < self.rows.len()
            invariant
                i <= self.rows@.len(),
                r@ == self.rows@.subrange(0, i as int),
            decreases self.rows@.len() - i,
        {
            r.push(self.rows[i].duplicate());
            i = i + 1;
        }
        assert(r@ == self.rows@.subrange(0, self.rows@.len() as int));
        r
    }
}

/// `id` is the id of no row of `rows`.
pub open spec fn is_fresh_id(rows: Seq<Person>, id: int) -> bool {
    forall|i: int| 0 <= i < rows.len() ==> rows[i].id != id
}

/// What an insert into `before` that came back with `r` leaves in `after`.
/// While the id column has room the insert succeeds: the person is `input`
/// under the next id, which no stored row has, and it is appended to the
/// table. Otherwise it fails and the table is unchanged.
pub open spec fn inserted(
    before: MemoryStore,
    input: CreatePersonDto,
    after: MemoryStore,
    r: Result<Person, PersonError>,
) -> bool {
    if before.next_id() <= MAX_ID {
        &&& r is Ok
        &&& created_from(input, before.next_id(), r->Ok_0)
        &&& r->Ok_0.id >= 1
        &&& is_fresh_id(before@, r->Ok_0.id as int)
        &&& after@ == before@.push(r->Ok_0)
        &&& after.next_id() == before.next_id() + 1
    } else {
        &&& r is Err
        &&& after == before
    }
}

/// A created person is answered with 201 and carries the submitted last name
/// and phone number, the submitted location or the empty string, and a
/// non-negative id that no person stored before has.
pub proof fn lemma_create_reply_matches_input(
    before: MemoryStore,
    input: CreatePersonDto,
    after: MemoryStore,
    r: Result<Person, PersonError>,
    reply: Response,
)
    requires
        before.wf(),
        before.next_id() <= MAX_ID,
        inserted(before, input, after, r),
        create_reply(r, reply),
    ensures
        reply.status == CREATED,
        reply.body is Person,
        created_from(input, reply.body->Person_0.id as int, reply.body->Person_0),
        reply.body->Person_0.id >= 0,
        is_fresh_id(before@, reply.body->Person_0.id as int),
{
}

/// Submitting the same input twice creates two persons with different ids.
pub proof fn lemma_repeated_create_gives_distinct_ids(
    s0: MemoryStore,
    input: CreatePersonDto,
    s1: MemoryStore,
    r1: Result<Person, PersonError>,
    s2: MemoryStore,
    r2: Result<Person, PersonError>,
)
    requires
        s0.wf(),
        s0.next_id() < MAX_ID,
        inserted(s0, input, s1, r1),
        inserted(s1, input, s2, r2),
    ensures
        r1 is Ok,
        r2 is Ok,
        r1->Ok_0.id != r2->Ok_0.id,
{
}

/// Listing a table into which nothing was inserted answers 200 with an empty
/// list.
pub proof fn lemma_empty_table_lists_nothing(s: MemoryStore, listed: Vec<Person>, reply: Response)
    requires
        s@.len() == 0,
        listed@ == s@,
        list_reply(Ok(listed), reply),
    ensures
        reply.status == OK,
        reply.body is Persons,
        reply.body->Persons_0@.len() == 0,
{
}

/// After two persons were created, the listing answers 200 with a list that
/// holds both, at whatever positions.
pub proof fn lemma_listing_holds_created(
    s0: MemoryStore,
    a: CreatePersonDto,
    s1: MemoryStore,
    r1: Result<Person, PersonError>,
    b: CreatePersonDto,
    s2: MemoryStore,
    r2: Result<Person, PersonError>,
    listed: Vec<Person>,
    reply: Response,
)
    requires
        s0.wf(),
        inserted(s0, a, s1, r1),
        inserted(s1, b, s2, r2),
        r1 is Ok,
        r2 is Ok,
        listed@ == s2@,
        list_reply(Ok(listed), reply),
    ensures
        reply.status == OK,
        reply.body is Persons,
        reply.body->Persons_0@.contains(r1->Ok_0),
        reply.body->Persons_0@.contains(r2->Ok_0),
{
    let v = reply.body->Persons_0@;
    assert(v[v.len() - 2] == r1->Ok_0);
    assert(v[v.len() - 1] == r2->Ok_0);
}

} // verus!
