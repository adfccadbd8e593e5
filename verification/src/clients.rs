//! The connections that a polling server holds.

use vstd::prelude::*;

verus! {

/// One accepted connection, as far as the server decides by it. The socket
/// itself is with the driver, under the same key.
#[derive(Clone, Copy, Debug, PartialEq, Eq, Structural)]
pub struct ClientConn {
    /// The key under which the socket is registered with the poller.
    pub key: usize,
    /// When the client last sent a message, in nanoseconds.
    pub last_update: u128,
    /// The process that the client has said it is, once it has.
    pub pid: Option<u32>,
}

/// What a connection is looked up by.
#[derive(Clone, Copy, Debug, PartialEq, Eq, Structural)]
pub enum Wanted {
    /// The connection registered under this key.
    Key(usize),
    /// The connection whose client announced itself as this process.
    Pid(u32),
}

impl Wanted {
    /// Whether `client` is a connection that is looked for.
    pub open spec fn is(self, client: ClientConn) -> bool {
        match self {
            Wanted::Key(key) => client.key == key,
            Wanted::Pid(pid) => client.pid == Some(pid),
        }
    }

    /// Whether `client` is a connection that is looked for.
    fn matches(&self, client: &ClientConn) -> (found: bool)
        ensures
            found == self.is(*client),
    {
        match *self {
            Wanted::Key(key) => client.key == key,
            Wanted::Pid(pid) => match client.pid {
                Some(announced) => announced == pid,
                None => false,
            },
        }
    }
}

/// The position of the first connection in `list` that is looked for.
pub open spec fn first_position(list: Seq<ClientConn>, wanted: Wanted) -> Option<int>
    decreases list.len(),
{
    if list.len() == 0 {
        None
    } else {
        match first_position(list.drop_last(), wanted) {
            Some(position) => Some(position),
            None => if wanted.is(list.last()) {
                Some(list.len() - 1)
            } else {
                None
            },
        }
    }
}

/// The time from the last message of `client` to `now`; a clock that went back
/// counts as one that stood still.
pub open spec fn silence(client: ClientConn, now: u128) -> int {
    if now >= client.last_update {
        now - client.last_update
    } else {
        0
    }
}

/// Whether `client` has been silent for too long at the time `now`.
pub open spec fn is_stale(client: ClientConn, now: u128, timeout: u128) -> bool {
    silence(client, now) >= timeout
}

/// The connections of `list` that are not stale, in their order, where
/// `clock[i]` is the time at which the connection `i` is looked at.
pub open spec fn fresh(list: Seq<ClientConn>, clock: Seq<u128>, timeout: u128) -> Seq<ClientConn>
    decreases list.len(),
{
    if list.len() == 0 {
        Seq::empty()
    } else {
        let before = fresh(list.drop_last(), clock, timeout);
        if is_stale(list.last(), clock[list.len() - 1], timeout) {
            before
        } else {
            before.push(list.last())
        }
    }
}

/// The keys of the connections of `list` that are stale, in their order.
pub open spec fn stale_keys(list: Seq<ClientConn>, clock: Seq<u128>, timeout: u128) -> Seq<usize>
    decreases list.len(),
{
    if list.len() == 0 {
        Seq::empty()
    } else {
        let before = stale_keys(list.drop_last(), clock, timeout);
        if is_stale(list.last(), clock[list.len() - 1], timeout) {
            before.push(list.last().key)
        } else {
            before
        }
    }
}

/// What a table of connections holds.
#[verifier::ext_equal]
pub struct Table {
    /// The connections, in the order of the table.
    pub list: Seq<ClientConn>,
    /// The key that the next connection gets.
    pub next_key: int,
}

impl Table {
    /// No connection is registered under the key of the listener, which is
    /// zero, nor under one that has not been given out, and no two under one.
    pub open spec fn wf(self) -> bool {
        &&& 1 <= self.next_key <= usize::MAX
        &&& forall|i: int| 0 <= i < self.list.len() ==> 1 <= (#[trigger] self.list[i]).key < self.next_key
        &&& forall|i: int, j: int|
            0 <= i < j < self.list.len() ==> (#[trigger] self.list[i]).key != (
            #[trigger] self.list[j]).key
    }

    /// The table before any connection was accepted.
    pub open spec fn empty() -> Table {
        Table { list: Seq::empty(), next_key: 1 }
    }

    /// The table when a key has been given out.
    pub open spec fn reserve(self) -> Table {
        Table { list: self.list, next_key: self.next_key + 1 }
    }

    /// The table with one more connection, at its end.
    pub open spec fn push(self, key: usize, now: u128) -> Table {
        Table {
            list: self.list.push(
                ClientConn { key, last_update: now, pid: None },
            ),
            next_key: self.next_key,
        }
    }

    /// The table when the client at `position` has sent a message.
    pub open spec fn touch(self, position: int, now: u128) -> Table {
        Table {
            list: self.list.update(
                position,
                ClientConn { last_update: now, ..self.list[position] },
            ),
            next_key: self.next_key,
        }
    }

    /// The table when the client at `position` has said which process it is.
    pub open spec fn announce(self, position: int, pid: u32) -> Table {
        Table {
            list: self.list.update(
                position,
                ClientConn { pid: Some(pid), ..self.list[position] },
            ),
            next_key: self.next_key,
        }
    }

    /// The table without the connection at `position`, whose place the last
    /// connection takes.
    pub open spec fn remove(self, position: int) -> Table {
        Table {
            list: self.list.update(position, self.list.last()).drop_last(),
            next_key: self.next_key,
        }
    }

    /// The table without its stale connections.
    pub open spec fn reap(self, clock: Seq<u128>, timeout: u128) -> Table {
        Table { list: fresh(self.list, clock, timeout), next_key: self.next_key }
    }
}

/// The table of the connections that a polling server holds.
#[derive(Debug)]
pub struct ClientTable {
    clients: Vec<ClientConn>,
    next_key: usize,
}

impl View for ClientTable {
    type V = Table;

    closed spec fn view(&self) -> Table {
        Table { list: self.clients@, next_key: self.next_key as int }
    }
}

impl ClientTable {
    /// A table without connections.
    pub fn new() -> (table: ClientTable)
        ensures
            table@ == Table::empty(),
            table@.wf(),
    {
        ClientTable { clients: Vec::new(), next_key: 1 }
    }

    /// How many connections there are.
    pub fn len(&self) -> (len: usize)
        ensures
            len == self@.list.len(),
    {
        self.clients.len()
    }

    /// The connection at `position`.
    pub fn get(&self, position: usize) -> (client: ClientConn)
        requires
            position < self@.list.len(),
        ensures
            client == self@.list[position as int],
    {
        self.clients[position]
    }

    /// Whether there are keys left to give out.
    pub fn has_keys(&self) -> (yes: bool)
        ensures
            yes == (self@.next_key < usize::MAX),
    {
        self.next_key < usize::MAX
    }

    /// Gives out a key that no connection has had.
    pub fn reserve(&mut self) -> (key: usize)
        requires
            old(self)@.next_key < usize::MAX,
        ensures
            key == old(self)@.next_key,
            final(self)@ == old(self)@.reserve(),
    {
        let key: usize = self.next_key;
        self.next_key = key + 1;
        key
    }

    /// Adds a connection under a key that was given out.
    pub fn push(&mut self, key: usize, now: u128)
        ensures
            final(self)@ == old(self)@.push(key, now),
    {
        self.clients.push(ClientConn { key, last_update: now, pid: None });
    }

    /// Finds the first connection that is looked for.
    pub fn position(&self, wanted: Wanted) -> (position: Option<usize>)
        ensures
            match position {
                Some(p) => first_position(self@.list, wanted) == Some(p as int),
                None => first_position(self@.list, wanted) is None,
            },
    {
        let mut i: usize = 0;
        while i < self.clients.len()
            invariant
                i <= self.clients@.len(),
                first_position(self.clients@.take(i as int), wanted) is None,
            decreases self.clients@.len() - i,
        {
            let ghost next = self.clients@.take(i + 1);
            assert(next.drop_last() =~= self.clients@.take(i as int));
            if wanted.matches(&self.clients[i]) {
                proof {
                    lemma_first_position_extends(self.clients@, wanted, i + 1);
                }
                return Some(i);
            }
            i += 1;
        }
        assert(self.clients@.take(i as int) =~= self.clients@);
        None
    }

    /// Notes that the client at `position` has sent a message.
    pub fn touch(&mut self, position: usize, now: u128)
        requires
            position < old(self)@.list.len(),
        ensures
            final(self)@ == old(self)@.touch(position as int, now),
    {
        let client = self.clients[position];
        self.clients.set(position, ClientConn { last_update: now, ..client });
    }

    /// Notes which process the client at `position` has said it is.
    pub fn announce(&mut self, position: usize, pid: u32)
        requires
            position < old(self)@.list.len(),
        ensures
            final(self)@ == old(self)@.announce(position as int, pid),
    {
        let client = self.clients[position];
        self.clients.set(position, ClientConn { pid: Some(pid), ..client });
    }

    /// Takes the connection at `position` out of the table.
    pub fn remove(&mut self, position: usize) -> (client: ClientConn)
        requires
            position < old(self)@.list.len(),
        ensures
            client == old(self)@.list[position as int],
            final(self)@ == old(self)@.remove(position as int),
    {
        self.clients.swap_remove(position)
    }

    /// Takes the stale connections out of the table and tells their keys.
    /// `clock[i]` is the time at which the connection `i` is looked at.
    pub fn reap(&mut self, clock: &Vec<u128>, timeout: u128) -> (keys: Vec<usize>)
        requires
            clock@.len() == old(self)@.list.len(),
        ensures
            final(self)@ == old(self)@.reap(clock@, timeout),
            keys@ == stale_keys(old(self)@.list, clock@, timeout),
    {
        let mut kept: Vec<ClientConn> = Vec::new();
        let mut keys: Vec<usize> = Vec::new();
        let mut i: usize = 0;
        while i < self.clients.len()
            invariant
                i <= self.clients@.len(),
                clock@.len() == self.clients@.len(),
                kept@ == fresh(self.clients@.take(i as int), clock@, timeout),
                keys@ == stale_keys(self.clients@.take(i as int), clock@, timeout),
            decreases self.clients@.len() - i,
        {
            let ghost next = self.clients@.take(i + 1);
            assert(next.drop_last() =~= self.clients@.take(i as int));
            let client = self.clients[i];
            let now: u128 = clock[i];
            let elapsed: u128 = if now >= client.last_update {
                now - client.last_update
            } else {
                0
            };
            if elapsed < timeout {
                kept.push(client);
            } else {
                keys.push(client.key);
            }
            i += 1;
        }
        assert(self.clients@.take(i as int) =~= self.clients@);
        self.clients = kept;
        keys
    }
}

/// The first connection that is looked for stays the first one when the list
/// grows at its end.
proof fn lemma_first_position_extends(list: Seq<ClientConn>, wanted: Wanted, n: int)
    requires
        0 <= n <= list.len(),
        first_position(list.take(n), wanted) is Some,
    ensures
        first_position(list, wanted) == first_position(list.take(n), wanted),
    decreases list.len() - n,
{
    if n < list.len() {
        assert(list.take(n + 1).drop_last() =~= list.take(n));
        lemma_first_position_extends(list, wanted, n + 1);
    } else {
        assert(list.take(n) =~= list);
    }
}

/// Looking up a connection finds the first one that is looked for, and finds
/// none only where there is none.
pub proof fn law_position_is_first(list: Seq<ClientConn>, wanted: Wanted)
    ensures
        match first_position(list, wanted) {
            Some(p) => {
                &&& 0 <= p < list.len()
                &&& wanted.is(list[p])
                &&& forall|i: int| 0 <= i < p ==> !wanted.is(#[trigger] list[i])
            },
            None => forall|i: int| 0 <= i < list.len() ==> !wanted.is(#[trigger] list[i]),
        },
    decreases list.len(),
{
    if list.len() > 0 {
        law_position_is_first(list.drop_last(), wanted);
        assert forall|i: int| 0 <= i < list.len() - 1 implies list[i]
            == #[trigger] list.drop_last()[i] by {}
        if first_position(list, wanted) is None {
            assert forall|i: int| 0 <= i < list.len() implies !wanted.is(#[trigger] list[i]) by {
                if i < list.len() - 1 {
                    assert(!wanted.is(list.drop_last()[i]));
                }
            }
        } else {
            let p = first_position(list, wanted)->0;
            assert forall|i: int| 0 <= i < p implies !wanted.is(#[trigger] list[i]) by {
                assert(!wanted.is(list.drop_last()[i]));
            }
        }
    }
}

/// A connection with a key of a well-formed table is found where it stands.
pub proof fn law_key_finds_its_connection(table: Table, position: int)
    requires
        table.wf(),
        0 <= position < table.list.len(),
    ensures
        first_position(table.list, Wanted::Key(table.list[position].key)) == Some(position),
{
    let key = table.list[position].key;
    law_position_is_first(table.list, Wanted::Key(key));
    assert(Wanted::Key(key).is(table.list[position]));
}

/// What is left of the connections after reaping came from the list, in its
/// order, and a connection is left exactly where it was not stale.
pub proof fn law_reap_keeps_the_fresh(list: Seq<ClientConn>, clock: Seq<u128>, timeout: u128)
    requires
        clock.len() == list.len(),
    ensures
        fresh(list, clock, timeout).len() + stale_keys(list, clock, timeout).len() == list.len(),
        forall|c: ClientConn| #[trigger]
            fresh(list, clock, timeout).contains(c) <==> exists|i: int|
                0 <= i < list.len() && list[i] == c && !is_stale(
                    list[i],
                    #[trigger] clock[i],
                    timeout,
                ),
    decreases list.len(),
{
    let kept = fresh(list, clock, timeout);
    if list.len() > 0 {
        let n = list.len() - 1;
        let before = list.drop_last();
        lemma_fresh_clock(before, clock, clock.drop_last(), timeout);
        law_reap_keeps_the_fresh(before, clock.drop_last(), timeout);
        let kept_before = fresh(before, clock, timeout);
        assert forall|c: ClientConn| #[trigger]
            kept.contains(c) <==> exists|i: int|
                0 <= i < list.len() && list[i] == c && !is_stale(
                    list[i],
                    #[trigger] clock[i],
                    timeout,
                ) by {
            if kept.contains(c) {
                let k = choose|k: int| 0 <= k < kept.len() && kept[k] == c;
                if k < kept_before.len() {
                    assert(kept_before[k] == c);
                    assert(kept_before.contains(c));
                    let i = choose|i: int|
                        0 <= i < before.len() && before[i] == c && !is_stale(
                            before[i],
                            #[trigger] clock.drop_last()[i],
                            timeout,
                        );
                    assert(!is_stale(list[i], clock[i], timeout));
                } else {
                    assert(!is_stale(list[n], clock[n], timeout));
                }
            }
            if exists|i: int|
                0 <= i < list.len() && list[i] == c && !is_stale(
                    list[i],
                    #[trigger] clock[i],
                    timeout,
                ) {
                let i = choose|i: int|
                    0 <= i < list.len() && list[i] == c && !is_stale(
                        list[i],
                        #[trigger] clock[i],
                        timeout,
                    );
                if i < n {
                    assert(!is_stale(before[i], clock.drop_last()[i], timeout));
                    assert(kept_before.contains(c));
                    let k = choose|k: int| 0 <= k < kept_before.len() && kept_before[k] == c;
                    assert(kept[k] == c);
                } else {
                    assert(kept.last() == c);
                }
            }
        }
    } else {
        assert forall|c: ClientConn| !(#[trigger] kept.contains(c)) by {}
    }
}

/// The keys that reaping tells are those of the connections that were stale, and
/// no others.
pub proof fn law_reap_tells_the_stale(
    list: Seq<ClientConn>,
    clock: Seq<u128>,
    timeout: u128,
    key: usize,
)
    requires
        clock.len() == list.len(),
    ensures
        stale_keys(list, clock, timeout).contains(key) <==> exists|i: int|
            0 <= i < list.len() && list[i].key == key && is_stale(
                list[i],
                #[trigger] clock[i],
                timeout,
            ),
    decreases list.len(),
{
    let told = stale_keys(list, clock, timeout);
    if list.len() > 0 {
        let n = list.len() - 1;
        let before = list.drop_last();
        lemma_fresh_clock(before, clock, clock.drop_last(), timeout);
        law_reap_tells_the_stale(before, clock.drop_last(), timeout, key);
        let told_before = stale_keys(before, clock, timeout);
        if told.contains(key) {
            let k = choose|k: int| 0 <= k < told.len() && told[k] == key;
            if k < told_before.len() {
                assert(told_before[k] == key);
                let i = choose|i: int|
                    0 <= i < before.len() && before[i].key == key && is_stale(
                        before[i],
                        #[trigger] clock.drop_last()[i],
                        timeout,
                    );
                assert(is_stale(list[i], clock[i], timeout));
            } else {
                assert(is_stale(list[n], clock[n], timeout));
            }
        }
        if exists|i: int|
            0 <= i < list.len() && list[i].key == key && is_stale(
                list[i],
                #[trigger] clock[i],
                timeout,
            ) {
            let i = choose|i: int|
                0 <= i < list.len() && list[i].key == key && is_stale(
                    list[i],
                    #[trigger] clock[i],
                    timeout,
                );
            if i < n {
                assert(is_stale(before[i], clock.drop_last()[i], timeout));
                let k = choose|k: int| 0 <= k < told_before.len() && told_before[k] == key;
                assert(told[k] == key);
            } else {
                assert(told.last() == key);
            }
        }
    }
}

/// Only the times of the connections that are looked at matter.
proof fn lemma_fresh_clock(
    list: Seq<ClientConn>,
    one: Seq<u128>,
    other: Seq<u128>,
    timeout: u128,
)
    requires
        forall|i: int| 0 <= i < list.len() ==> #[trigger] one[i] == #[trigger] other[i],
    ensures
        fresh(list, one, timeout) == fresh(list, other, timeout),
        stale_keys(list, one, timeout) == stale_keys(list, other, timeout),
    decreases list.len(),
{
    if list.len() > 0 {
        let n = list.len() - 1;
        assert(one[n] == other[n]);
        lemma_fresh_clock(list.drop_last(), one, other, timeout);
    }
}

/// A list of connections, without some of them, still has no key twice.
proof fn lemma_fresh_wf(table: Table, clock: Seq<u128>, timeout: u128)
    requires
        table.wf(),
    ensures
        table.reap(clock, timeout).wf(),
        forall|k: int|
            0 <= k < fresh(table.list, clock, timeout).len() ==> table.list.contains(
                #[trigger] fresh(table.list, clock, timeout)[k],
            ),
    decreases table.list.len(),
{
    if table.list.len() > 0 {
        let list = table.list;
        let n = list.len() - 1;
        let before = Table { list: list.drop_last(), next_key: table.next_key };
        assert forall|i: int| 0 <= i < before.list.len() implies 1 <= (
        #[trigger] before.list[i]).key < before.next_key by {
            assert(before.list[i] == list[i]);
        }
        assert forall|i: int, j: int| 0 <= i < j < before.list.len() implies (
        #[trigger] before.list[i]).key != (#[trigger] before.list[j]).key by {
            assert(before.list[i] == list[i]);
            assert(before.list[j] == list[j]);
        }
        lemma_fresh_wf(before, clock, timeout);
        let kept_before = fresh(before.list, clock, timeout);
        let kept = fresh(list, clock, timeout);
        assert forall|k: int| 0 <= k < kept.len() implies list.contains(#[trigger] kept[k]) by {
            if k < kept_before.len() {
                assert(before.list.contains(kept_before[k]));
                let i = choose|i: int| 0 <= i < before.list.len() && before.list[i] == kept_before[k];
                assert(list[i] == kept[k]);
            } else {
                assert(list[n] == kept[k]);
            }
        }
        assert forall|i: int| 0 <= i < kept.len() implies 1 <= (#[trigger] kept[i]).key
            < table.next_key by {
            assert(list.contains(kept[i]));
        }
        assert forall|i: int, j: int| 0 <= i < j < kept.len() implies (#[trigger] kept[i]).key != (
        #[trigger] kept[j]).key by {
            if j < kept_before.len() {
                let reaped = before.reap(clock, timeout).list;
                assert(reaped[i].key != reaped[j].key);
            } else {
                assert(before.list.contains(kept_before[i]));
                let a = choose|a: int| 0 <= a < before.list.len() && before.list[a] == kept_before[i];
                assert(list[a].key != list[n].key);
            }
        }
    }
}

/// Every operation on a table keeps it well-formed: keys are never shared,
/// never zero, and never used again.
pub proof fn law_table_stays_well_formed(table: Table)
    requires
        table.wf(),
    ensures
        table.next_key < usize::MAX ==> table.reserve().wf(),
        table.next_key < usize::MAX ==> forall|now: u128|
            (#[trigger] table.reserve().push(table.next_key as usize, now)).wf(),
        forall|p: int, now: u128|
            0 <= p < table.list.len() ==> (#[trigger] table.touch(p, now)).wf(),
        forall|p: int, pid: u32|
            0 <= p < table.list.len() ==> (#[trigger] table.announce(p, pid)).wf(),
        forall|p: int| 0 <= p < table.list.len() ==> (#[trigger] table.remove(p)).wf(),
        forall|clock: Seq<u128>, timeout: u128| (#[trigger] table.reap(clock, timeout)).wf(),
{
    assert forall|p: int| 0 <= p < table.list.len() implies (#[trigger] table.remove(p)).wf() by {
        let rest = table.remove(p).list;
        let n = table.list.len() - 1;
        assert forall|i: int| 0 <= i < rest.len() implies #[trigger] rest[i] == table.list[if i == p {
            n
        } else {
            i
        }] by {}
    }
    assert forall|clock: Seq<u128>, timeout: u128| (#[trigger] table.reap(clock, timeout)).wf() by {
        lemma_fresh_wf(table, clock, timeout);
    }
}

/// Taking a connection out leaves every other connection in the table, as it
/// was, and takes out no more than the one.
pub proof fn law_remove_takes_one(table: Table, position: int)
    requires
        table.wf(),
        0 <= position < table.list.len(),
    ensures
        table.remove(position).list.len() == table.list.len() - 1,
        forall|c: ClientConn| #[trigger]
            table.remove(position).list.contains(c) <==> table.list.contains(c) && c
                != table.list[position],
{
    let list = table.list;
    let rest = table.remove(position).list;
    let n = list.len() - 1;
    assert forall|c: ClientConn| #[trigger]
        rest.contains(c) <==> list.contains(c) && c != list[position] by {
        if rest.contains(c) {
            let i = choose|i: int| 0 <= i < rest.len() && rest[i] == c;
            let j = if i == position {
                n
            } else {
                i
            };
            assert(list[j] == c);
            assert(list[j].key != list[position].key);
        }
        if list.contains(c) && c != list[position] {
            let j = choose|j: int| 0 <= j < list.len() && list[j] == c;
            let i = if j == n {
                position
            } else {
                j
            };
            assert(rest[i] == c);
        }
    }
}

/// A client stays exactly if less than the time limit has passed since it was last heard
/// of: one that was heard of at the time `t`, and is looked at at the time `c`, stays if and
/// only if `c` is before `t + timeout`, and nobody stays if the limit is zero. The key of a
/// client that goes is told.
pub proof fn law_recent_clients_stay(
    table: Table,
    clock: Seq<u128>,
    timeout: u128,
    position: int,
)
    requires
        table.wf(),
        clock.len() == table.list.len(),
        0 <= position < table.list.len(),
    ensures
        ({
            let client = table.list[position];
            let recent = timeout > 0 && clock[position] < client.last_update + timeout;
            &&& table.reap(clock, timeout).list.contains(client) <==> recent
            &&& stale_keys(table.list, clock, timeout).contains(client.key) <==> !recent
        }),
{
    let list = table.list;
    let client = list[position];
    law_reap_keeps_the_fresh(list, clock, timeout);
    law_reap_tells_the_stale(list, clock, timeout, client.key);
    assert forall|i: int| 0 <= i < list.len() && list[i].key == client.key implies i == position by {
        if i < position {
            assert(list[i].key != list[position].key);
        } else if position < i {
            assert(list[position].key != list[i].key);
        }
    }
    let kept = table.reap(clock, timeout).list;
    if kept.contains(client) {
        let i = choose|i: int|
            0 <= i < list.len() && list[i] == client && !is_stale(
                list[i],
                #[trigger] clock[i],
                timeout,
            );
        assert(i == position);
    }
    if timeout > 0 && clock[position] < client.last_update + timeout {
        assert(!is_stale(list[position], clock[position], timeout));
    } else {
        assert(is_stale(list[position], clock[position], timeout));
    }
}

/// A client that is silent stays silent: if it goes at one time, it would go at any later
/// time, and with any shorter limit.
pub proof fn law_silence_only_grows(
    table: Table,
    clock: Seq<u128>,
    later: Seq<u128>,
    timeout: u128,
    shorter: u128,
    position: int,
)
    requires
        table.wf(),
        clock.len() == table.list.len(),
        later.len() == table.list.len(),
        0 <= position < table.list.len(),
        clock[position] <= later[position],
        shorter <= timeout,
        stale_keys(table.list, clock, timeout).contains(table.list[position].key),
    ensures
        stale_keys(table.list, later, shorter).contains(table.list[position].key),
{
    law_recent_clients_stay(table, clock, timeout, position);
    law_recent_clients_stay(table, later, shorter, position);
}

/// Reaping does not change the order of those who stay.
pub proof fn law_reap_keeps_the_order(
    list: Seq<ClientConn>,
    clock: Seq<u128>,
    timeout: u128,
    i: int,
    j: int,
)
    requires
        clock.len() == list.len(),
        0 <= i < j < list.len(),
        timeout > 0,
        clock[i] < list[i].last_update + timeout,
        clock[j] < list[j].last_update + timeout,
    ensures
        exists|a: int, b: int|
            0 <= a < b < fresh(list, clock, timeout).len() && #[trigger] fresh(
                list,
                clock,
                timeout,
            )[a] == list[i] && #[trigger] fresh(list, clock, timeout)[b] == list[j],
    decreases list.len(),
{
    let before = list.drop_last();
    let n = list.len() - 1;
    let kept = fresh(list, clock, timeout);
    let kept_before = fresh(before, clock, timeout);
    lemma_fresh_clock(before, clock, clock.drop_last(), timeout);
    if j < n {
        law_reap_keeps_the_order(before, clock.drop_last(), timeout, i, j);
        let (a, b) = choose|a: int, b: int|
            0 <= a < b < kept_before.len() && #[trigger] kept_before[a] == before[i]
                && #[trigger] kept_before[b] == before[j];
        assert(kept[a] == list[i] && kept[b] == list[j]);
    } else {
        law_reap_keeps_the_fresh(before, clock.drop_last(), timeout);
        assert(!is_stale(before[i], clock.drop_last()[i], timeout));
        assert(kept_before.contains(before[i]));
        let a = choose|a: int| 0 <= a < kept_before.len() && kept_before[a] == before[i];
        assert(!is_stale(list[n], clock[n], timeout));
        assert(kept[a] == list[i] && kept[kept.len() - 1] == list[j]);
    }
}

/// Looking up a key or a process finds the first connection that has it, and finds nothing
/// only where no connection has it.
pub proof fn law_lookup_finds_the_first(list: Seq<ClientConn>, key: usize, pid: u32)
    ensures
        match first_position(list, Wanted::Key(key)) {
            Some(p) => {
                &&& 0 <= p < list.len() && list[p].key == key
                &&& forall|i: int| 0 <= i < p ==> (#[trigger] list[i]).key != key
            },
            None => forall|i: int| 0 <= i < list.len() ==> (#[trigger] list[i]).key != key,
        },
        match first_position(list, Wanted::Pid(pid)) {
            Some(p) => {
                &&& 0 <= p < list.len() && list[p].pid == Some(pid)
                &&& forall|i: int| 0 <= i < p ==> (#[trigger] list[i]).pid != Some(pid)
            },
            None => forall|i: int| 0 <= i < list.len() ==> (#[trigger] list[i]).pid != Some(pid),
        },
{
    law_position_is_first(list, Wanted::Key(key));
    law_position_is_first(list, Wanted::Pid(pid));
    assert forall|i: int| 0 <= i < list.len() implies Wanted::Key(key).is(list[i]) == (
    (#[trigger] list[i]).key == key) by {}
    assert forall|i: int| 0 <= i < list.len() implies Wanted::Pid(pid).is(list[i]) == (
    (#[trigger] list[i]).pid == Some(pid)) by {}
}

/// An operation on a table does to the connection that it is about what it says, and to no
/// other connection anything.
pub proof fn law_operations_change_one_connection(
    table: Table,
    position: int,
    key: usize,
    now: u128,
    pid: u32,
    i: int,
)
    requires
        0 <= position < table.list.len(),
        0 <= i < table.list.len(),
    ensures
        table.reserve().list == table.list && table.reserve().next_key == table.next_key + 1,
        table.push(key, now).list.len() == table.list.len() + 1,
        table.push(key, now).list[i] == table.list[i],
        table.push(key, now).list.last() == (ClientConn { key, last_update: now, pid: None }),
        table.push(key, now).next_key == table.next_key,
        table.touch(position, now).list.len() == table.list.len(),
        table.touch(position, now).next_key == table.next_key,
        table.touch(position, now).list[i] == if i == position {
            ClientConn { key: table.list[i].key, last_update: now, pid: table.list[i].pid }
        } else {
            table.list[i]
        },
        table.announce(position, pid).list.len() == table.list.len(),
        table.announce(position, pid).next_key == table.next_key,
        table.announce(position, pid).list[i] == if i == position {
            ClientConn {
                key: table.list[i].key,
                last_update: table.list[i].last_update,
                pid: Some(pid),
            }
        } else {
            table.list[i]
        },
        table.remove(position).list.len() == table.list.len() - 1,
        table.remove(position).next_key == table.next_key,
        i < table.list.len() - 1 ==> table.remove(position).list[i] == if i == position {
            table.list[table.list.len() - 1]
        } else {
            table.list[i]
        },
        Table::empty().list.len() == 0 && Table::empty().next_key == 1,
{
}

} // verus!
