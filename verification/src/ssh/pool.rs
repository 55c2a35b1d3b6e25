//! The connection pool: which connection a caller gets, what happens to a
//! connection that comes back, and which connections a health check drops.

use vstd::prelude::*;
use std::time::Duration;
use crate::proto::message::RequestId;
use crate::ssh::connection::Connection;
use crate::ssh::error::TransportError;
use crate::ssh::transport::SshConfig;
use crate::tagmap::TagMap;
use crate::text::{concat, copy_str, str_eq};
use crate::time::{duration_millis, duration_nanos, millis_of, NANOS_PER_SEC};

verus! {

/// Configuration of the pool.
#[derive(Debug, Clone)]
pub struct PoolConfig {
    /// Largest number of pooled connections per host.
    pub max_connections_per_host: usize,
    /// Longest time that a pooled connection may stay unused.
    pub max_idle_time: Duration,
    /// Longest time that one connection attempt may take.
    pub connection_timeout: Duration,
    /// Time between health checks.
    pub health_check_interval: Duration,
    /// Number of connection attempts.
    pub max_retries: u32,
    /// Time between connection attempts.
    pub retry_delay: Duration,
}

impl Default for PoolConfig {
    /// Ten connections per host, five minutes idle, 30 seconds per attempt,
    /// a health check every minute, three attempts one second apart.
    fn default() -> (c: PoolConfig)
        ensures
            c.max_connections_per_host == 10,
            duration_nanos(c.max_idle_time) == 300 * NANOS_PER_SEC as nat,
            duration_nanos(c.connection_timeout) == 30 * NANOS_PER_SEC as nat,
            duration_nanos(c.health_check_interval) == 60 * NANOS_PER_SEC as nat,
            c.max_retries == 3,
            duration_nanos(c.retry_delay) == 1 * NANOS_PER_SEC as nat,
    {
        PoolConfig {
            max_connections_per_host: 10,
            max_idle_time: Duration::from_secs(300),
            connection_timeout: Duration::from_secs(30),
            health_check_interval: Duration::from_secs(60),
            max_retries: 3,
            retry_delay: Duration::from_secs(1),
        }
    }
}

/// Numbers about the pool.
#[derive(Debug, Clone, Copy, PartialEq, Eq, Structural)]
pub struct PoolStats {
    /// Number of pooled connections.
    pub total_connections: usize,
    /// Number of pooled connections that are healthy.
    pub healthy_connections: usize,
    /// Number of hosts with a pooled connection.
    pub hosts: usize,
}

/// A pooled connection.
#[derive(Debug)]
pub struct PoolEntry<P> {
    /// Host that the connection leads to.
    pub host: String,
    /// The connection.
    pub connection: Connection<P>,
    /// When the connection was last used, in milliseconds of the pool's clock.
    pub last_used: u64,
    /// Whether the connection passed its last check.
    pub healthy: bool,
    /// How often the connection was used.
    pub use_count: u64,
}

/// What a caller gets from the pool.
#[derive(Debug)]
pub enum Acquired<P> {
    /// A pooled connection.
    Reuse(Connection<P>),
    /// Nothing pooled: connect with this configuration.
    Connect(SshConfig),
}

/// How one connection attempt ended.
#[derive(Debug)]
pub enum AttemptOutcome<P> {
    /// The connection stands.
    Connected(Connection<P>),
    /// The attempt failed.
    Failed(TransportError),
    /// The attempt took longer than allowed.
    TimedOut,
}

/// What follows a connection attempt.
#[derive(Debug)]
pub enum RetryStep<P> {
    /// The connection stands.
    Done(Connection<P>),
    /// Wait this long, then try again.
    RetryAfter(Duration),
    /// No attempt is left: fail with the last error.
    GiveUp(TransportError),
}

/// An entry can be handed out for `host`: it leads there, is healthy and connected.
pub open spec fn is_reusable<P>(e: PoolEntry<P>, host: Seq<char>) -> bool {
    e.host@ == host && e.healthy && e.connection.connected()
}

/// The place of the first entry that can be handed out for `host`.
pub open spec fn first_reusable<P>(entries: Seq<PoolEntry<P>>, host: Seq<char>) -> Option<int>
    decreases entries.len(),
{
    if entries.len() == 0 {
        None
    } else if is_reusable(entries[0], host) {
        Some(0)
    } else {
        match first_reusable(entries.skip(1), host) {
            Some(i) => Some(i + 1),
            None => None,
        }
    }
}

/// Number of entries for `host`.
pub open spec fn count_for<P>(entries: Seq<PoolEntry<P>>, host: Seq<char>) -> nat
    decreases entries.len(),
{
    if entries.len() == 0 {
        0
    } else {
        count_for(entries.drop_last(), host) + (if entries.last().host@ == host {
            1nat
        } else {
            0nat
        })
    }
}

/// Number of healthy entries.
pub open spec fn count_healthy<P>(entries: Seq<PoolEntry<P>>) -> nat
    decreases entries.len(),
{
    if entries.len() == 0 {
        0
    } else {
        count_healthy(entries.drop_last()) + (if entries.last().healthy {
            1nat
        } else {
            0nat
        })
    }
}

/// Number of hosts among the entries: the entries that are the first for their host.
pub open spec fn count_hosts<P>(entries: Seq<PoolEntry<P>>) -> nat
    decreases entries.len(),
{
    if entries.len() == 0 {
        0
    } else {
        count_hosts(entries.drop_last()) + (if count_for(
            entries.drop_last(),
            entries.last().host@,
        ) == 0 {
            1nat
        } else {
            0nat
        })
    }
}

/// An entry outlives a health check at `now`: it was used no longer ago
/// than `max_idle`, and it is connected.
pub open spec fn survives<P>(e: PoolEntry<P>, now: u64, max_idle: u64) -> bool {
    (now <= e.last_used || now - e.last_used <= max_idle) && e.connection.connected()
}

proof fn lemma_first_reusable<P>(entries: Seq<PoolEntry<P>>, host: Seq<char>, n: int)
    requires
        0 <= n <= entries.len(),
        forall|k: int| 0 <= k < n ==> !is_reusable(#[trigger] entries[k], host),
    ensures
        n < entries.len() && is_reusable(entries[n], host) ==> first_reusable(entries, host)
            == Some(n),
        n == entries.len() ==> first_reusable(entries, host) is None,
    decreases n,
{
    if n == 0 {
    } else {
        let rest = entries.skip(1);
        assert forall|k: int| 0 <= k < n - 1 implies !is_reusable(#[trigger] rest[k], host) by {
            assert(rest[k] == entries[k + 1]);
        }
        lemma_first_reusable(rest, host, n - 1);
        if n < entries.len() {
            assert(rest[n - 1] == entries[n]);
        }
    }
}

proof fn lemma_count_bounds<P>(entries: Seq<PoolEntry<P>>, host: Seq<char>)
    ensures
        count_for(entries, host) <= entries.len(),
        count_healthy(entries) <= entries.len(),
        count_hosts(entries) <= entries.len(),
    decreases entries.len(),
{
    if entries.len() > 0 {
        lemma_count_bounds(entries.drop_last(), host);
    }
}

/// A connection that came back is there to be handed out: after a healthy,
/// connected entry for `host` was added, some entry can be handed out for
/// `host`, so that no new connection is asked for; and if none could be
/// handed out before, it is the entry added.
pub proof fn lemma_returned_connection_is_reused<P>(
    entries: Seq<PoolEntry<P>>,
    entry: PoolEntry<P>,
    host: Seq<char>,
)
    requires
        is_reusable(entry, host),
    ensures
        first_reusable(entries.push(entry), host) is Some,
        first_reusable(entries, host) is None ==> first_reusable(entries.push(entry), host)
            == Some(entries.len() as int),
        first_reusable(entries, host) is Some ==> first_reusable(entries.push(entry), host)
            == first_reusable(entries, host),
    decreases entries.len(),
{
    let pushed = entries.push(entry);
    if entries.len() == 0 {
        assert(pushed[0] == entry);
    } else {
        assert(pushed[0] == entries[0]);
        assert(pushed.skip(1) =~= entries.skip(1).push(entry));
        lemma_returned_connection_is_reused(entries.skip(1), entry, host);
    }
}

/// The pooled entries after a caller got a connection for `host`: the first
/// entry that can be handed out has left.
pub open spec fn after_acquire<P>(entries: Seq<PoolEntry<P>>, host: Seq<char>) -> Seq<
    PoolEntry<P>,
> {
    match first_reusable(entries, host) {
        Some(i) => entries.remove(i),
        None => entries,
    }
}

/// The pooled entries after `entry` came back, where a host may have `max`
/// pooled connections.
pub open spec fn after_release<P>(entries: Seq<PoolEntry<P>>, entry: PoolEntry<P>, max: nat) -> Seq<
    PoolEntry<P>,
> {
    if entry.connection.connected() && count_for(entries, entry.host@) < max {
        entries.push(entry)
    } else {
        entries
    }
}

/// How many connections are made when callers use `host` one after the
/// other, each giving back what it got before the next one asks:
/// `returned[k]` is the entry that comes back from the use number `k`. A use
/// that finds a pooled connection makes none; a use that finds none makes
/// one, unless the host is full, in which case the use is refused.
pub open spec fn connections_made<P>(
    entries: Seq<PoolEntry<P>>,
    host: Seq<char>,
    returned: Seq<PoolEntry<P>>,
    max: nat,
) -> nat
    decreases returned.len(),
{
    if returned.len() == 0 {
        0
    } else if first_reusable(entries, host) is Some {
        connections_made(
            after_release(after_acquire(entries, host), returned[0], max),
            host,
            returned.skip(1),
            max,
        )
    } else if count_for(entries, host) < max {
        1 + connections_made(after_release(entries, returned[0], max), host, returned.skip(1), max)
    } else {
        connections_made(entries, host, returned.skip(1), max)
    }
}

proof fn lemma_count_push<P>(entries: Seq<PoolEntry<P>>, entry: PoolEntry<P>, host: Seq<char>)
    ensures
        count_for(entries.push(entry), host) == count_for(entries, host) + (if entry.host@
            == host {
            1nat
        } else {
            0nat
        }),
{
    assert(entries.push(entry).drop_last() =~= entries);
    assert(entries.push(entry).last() == entry);
}

proof fn lemma_count_remove<P>(entries: Seq<PoolEntry<P>>, i: int, host: Seq<char>)
    requires
        0 <= i < entries.len(),
    ensures
        count_for(entries.remove(i), host) + (if entries[i].host@ == host {
            1nat
        } else {
            0nat
        }) == count_for(entries, host),
    decreases entries.len(),
{
    if i == entries.len() - 1 {
        assert(entries.remove(i) =~= entries.drop_last());
    } else {
        let front = entries.drop_last();
        lemma_count_remove(front, i, host);
        assert(entries.remove(i).drop_last() =~= front.remove(i));
        assert(entries.remove(i).last() == entries.last());
        assert(front[i] == entries[i]);
    }
}

proof fn lemma_first_reusable_is_reusable<P>(entries: Seq<PoolEntry<P>>, host: Seq<char>)
    requires
        first_reusable(entries, host) is Some,
    ensures
        0 <= first_reusable(entries, host).unwrap() < entries.len(),
        is_reusable(entries[first_reusable(entries, host).unwrap()], host),
    decreases entries.len(),
{
    if entries.len() > 0 && !is_reusable(entries[0], host) {
        lemma_first_reusable_is_reusable(entries.skip(1), host);
        let i = first_reusable(entries.skip(1), host).unwrap();
        assert(entries.skip(1)[i] == entries[i + 1]);
    }
}

proof fn lemma_no_connection_once_pooled<P>(
    entries: Seq<PoolEntry<P>>,
    host: Seq<char>,
    returned: Seq<PoolEntry<P>>,
    max: nat,
)
    requires
        first_reusable(entries, host) is Some || returned.len() == 0,
        count_for(entries, host) <= max,
        forall|k: int| 0 <= k < returned.len() ==> is_reusable(#[trigger] returned[k], host),
    ensures
        connections_made(entries, host, returned, max) == 0,
    decreases returned.len(),
{
    if returned.len() > 0 {
        let i = first_reusable(entries, host).unwrap();
        lemma_first_reusable_is_reusable(entries, host);
        lemma_count_remove(entries, i, host);
        let taken = after_acquire(entries, host);
        let back = after_release(taken, returned[0], max);
        assert(back == taken.push(returned[0]));
        lemma_count_push(taken, returned[0], host);
        lemma_returned_connection_is_reused(taken, returned[0], host);
        assert forall|k: int| 0 <= k < returned.skip(1).len() implies is_reusable(
            #[trigger] returned.skip(1)[k],
            host,
        ) by {
            assert(returned.skip(1)[k] == returned[k + 1]);
        }
        lemma_no_connection_once_pooled(back, host, returned.skip(1), max);
    }
}

/// Callers that use a host one after the other, each giving back a healthy,
/// connected connection before the next one asks, make at most one
/// connection, however many they are.
pub proof fn lemma_sequential_use_connects_at_most_once<P>(
    entries: Seq<PoolEntry<P>>,
    host: Seq<char>,
    returned: Seq<PoolEntry<P>>,
    max: nat,
)
    requires
        count_for(entries, host) <= max,
        forall|k: int| 0 <= k < returned.len() ==> is_reusable(#[trigger] returned[k], host),
    ensures
        connections_made(entries, host, returned, max) <= 1,
    decreases returned.len(),
{
    if returned.len() == 0 {
    } else {
        assert forall|k: int| 0 <= k < returned.skip(1).len() implies is_reusable(
            #[trigger] returned.skip(1)[k],
            host,
        ) by {
            assert(returned.skip(1)[k] == returned[k + 1]);
        }
        if first_reusable(entries, host) is Some {
            lemma_no_connection_once_pooled(entries, host, returned, max);
        } else if count_for(entries, host) < max {
            let back = after_release(entries, returned[0], max);
            assert(back == entries.push(returned[0]));
            lemma_count_push(entries, returned[0], host);
            lemma_returned_connection_is_reused(entries, returned[0], host);
            lemma_no_connection_once_pooled(back, host, returned.skip(1), max);
        } else {
            lemma_sequential_use_connects_at_most_once(entries, host, returned.skip(1), max);
        }
    }
}

/// A pool of connections over processes of type `P`.
pub struct ConnectionPool<P> {
    config: PoolConfig,
    entries: Vec<PoolEntry<P>>,
    ssh_configs: TagMap<SshConfig>,
}

impl<P> ConnectionPool<P> {
    /// The pooled connections, in the order in which they came back.
    pub closed spec fn pooled(&self) -> Seq<PoolEntry<P>> {
        self.entries@
    }

    /// The configuration of the pool.
    pub closed spec fn spec_config(&self) -> PoolConfig {
        self.config
    }

    /// The configuration known for a host.
    pub closed spec fn host_config(&self, host: Seq<char>) -> Option<SshConfig> {
        self.ssh_configs.lookup(host)
    }

    /// An empty pool.
    pub fn new(config: PoolConfig) -> (p: ConnectionPool<P>)
        ensures
            p.pooled() == Seq::<PoolEntry<P>>::empty(),
            p.spec_config() == config,
            forall|host: Seq<char>| p.host_config(host) is None,
    {
        ConnectionPool { config, entries: Vec::new(), ssh_configs: TagMap::new() }
    }

    /// The configuration of the pool.
    pub fn config(&self) -> (c: &PoolConfig)
        ensures
            *c == self.spec_config(),
    {
        &self.config
    }

    /// Makes the configuration for a host known, in place of an earlier one.
    pub fn add_host(&mut self, host: String, config: SshConfig)
        ensures
            final(self).pooled() == old(self).pooled(),
            final(self).spec_config() == old(self).spec_config(),
            forall|h: Seq<char>|
                #[trigger] final(self).host_config(h) == (if h == host@ {
                    Some(config)
                } else {
                    old(self).host_config(h)
                }),
    {
        self.ssh_configs.register(host, config);
    }

    fn find_reusable(&self, host: &str) -> (r: Option<usize>)
        ensures
            match r {
                Some(i) => first_reusable(self.entries@, host@) == Some(i as int) && i
                    < self.entries@.len(),
                None => first_reusable(self.entries@, host@) is None,
            },
    {
        let mut i: usize = 0;
        while i < self.entries.len()
            invariant
                i <= self.entries@.len(),
                forall|k: int| 0 <= k < i ==> !is_reusable(#[trigger] self.entries@[k], host@),
            decreases self.entries@.len() - i,
        {
            let e = &self.entries[i];
            if e.healthy && e.connection.is_connected() && str_eq(e.host.as_str(), host) {
                proof {
                    lemma_first_reusable(self.entries@, host@, i as int);
                }
                return Some(i);
            }
            i = i + 1;
        }
        proof {
            lemma_first_reusable(self.entries@, host@, i as int);
        }
        None
    }

    fn count_host(&self, host: &str) -> (n: usize)
        ensures
            n == count_for(self.entries@, host@),
    {
        let mut n: usize = 0;
        let mut i: usize = 0;
        while i < self.entries.len()
            invariant
                i <= self.entries@.len(),
                n == count_for(self.entries@.subrange(0, i as int), host@),
                n <= i,
            decreases self.entries@.len() - i,
        {
            let ghost more = self.entries@.subrange(0, i + 1);
            assert(more.drop_last() =~= self.entries@.subrange(0, i as int));
            assert(more.last() == self.entries@[i as int]);
            if str_eq(self.entries[i].host.as_str(), host) {
                n = n + 1;
            }
            i = i + 1;
        }
        assert(self.entries@.subrange(0, self.entries@.len() as int) == self.entries@);
        n
    }

    /// Gets a connection for `host`.
    ///
    /// The first pooled connection for the host that is healthy and
    /// connected leaves the pool and is handed out. Without one, a host
    /// that has as many pooled connections as allowed is refused, and so is
    /// a host without configuration; otherwise the caller is told to connect.
    pub fn acquire(&mut self, host: &str) -> (r: Result<Acquired<P>, TransportError>)
        ensures
            final(self).spec_config() == old(self).spec_config(),
            forall|h: Seq<char>| final(self).host_config(h) == old(self).host_config(h),
            match first_reusable(old(self).pooled(), host@) {
                Some(i) => r matches Ok(Acquired::Reuse(c)) && c
                    == old(self).pooled()[i].connection && final(self).pooled()
                    == old(self).pooled().remove(i),
                None => final(self).pooled() == old(self).pooled() && (if count_for(
                    old(self).pooled(),
                    host@,
                ) >= old(self).spec_config().max_connections_per_host {
                    r matches Err(TransportError::Configuration(m)) && m@
                        == "Maximum connections reached for host: "@ + host@
                } else {
                    match old(self).host_config(host@) {
                        Some(config) => r matches Ok(Acquired::Connect(c)) && c.same_as(config),
                        None => r matches Err(TransportError::Configuration(m)) && m@
                            == "No SSH configuration found for host: "@ + host@,
                    }
                }),
            },
    {
        if let Some(i) = self.find_reusable(host) {
            let entry = self.entries.remove(i);
            return Ok(Acquired::Reuse(entry.connection));
        }
        if self.count_host(host) >= self.config.max_connections_per_host {
            return Err(
                TransportError::Configuration(
                    concat("Maximum connections reached for host: ", host),
                ),
            );
        }
        match self.ssh_configs.get(host) {
            Some(config) => Ok(Acquired::Connect(config.clone())),
            None => Err(
                TransportError::Configuration(concat("No SSH configuration found for host: ",
                    host)),
            ),
        }
    }

    /// Takes back a connection for `host` at the time `now`.
    ///
    /// A connection that is not connected is not pooled. A connected one is
    /// pooled behind the others, healthy and used once, unless the host has
    /// as many pooled connections as allowed. A connection that is not
    /// pooled is handed back, to be dropped.
    pub fn release(&mut self, host: String, connection: Connection<P>, now: u64) -> (r: Option<
        Connection<P>,
    >)
        ensures
            final(self).spec_config() == old(self).spec_config(),
            forall|h: Seq<char>| final(self).host_config(h) == old(self).host_config(h),
            if connection.connected() && count_for(old(self).pooled(),
                host@) < old(self).spec_config().max_connections_per_host {
                r is None && final(self).pooled() == old(self).pooled().push(
                    PoolEntry { host, connection, last_used: now, healthy: true, use_count: 1 },
                )
            } else {
                r == Some(connection) && final(self).pooled() == old(self).pooled()
            },
    {
        if !connection.is_connected() {
            return Some(connection);
        }
        if self.count_host(host.as_str()) < self.config.max_connections_per_host {
            self.entries.push(
                PoolEntry { host, connection, last_used: now, healthy: true, use_count: 1 },
            );
            None
        } else {
            Some(connection)
        }
    }

    /// Checks the pooled connections at the time `now`: those unused for
    /// longer than allowed and those no longer connected leave the pool and
    /// are handed out, to be closed; the others stay, in their order.
    pub fn health_check(&mut self, now: u64) -> (dropped: Vec<Connection<P>>)
        ensures
            final(self).spec_config() == old(self).spec_config(),
            forall|h: Seq<char>| final(self).host_config(h) == old(self).host_config(h),
            final(self).pooled() == old(self).pooled().filter(
                |e: PoolEntry<P>| survives(e, now,
                    millis_of(old(self).spec_config().max_idle_time)),
            ),
            dropped@ == old(self).pooled().filter(
                |e: PoolEntry<P>|
                    !survives(e, now, millis_of(old(self).spec_config().max_idle_time)),
            ).map_values(|e: PoolEntry<P>| e.connection),
    {
        let max_idle: u64 = duration_millis(&self.config.max_idle_time);
        let mut rest: Vec<PoolEntry<P>> = Vec::new();
        core::mem::swap(&mut rest, &mut self.entries);
        let ghost all = rest@;
        let ghost keep = |e: PoolEntry<P>| survives(e, now, max_idle);
        let ghost lose = |e: PoolEntry<P>| !survives(e, now, max_idle);
        let ghost conn = |e: PoolEntry<P>| e.connection;
        let mut dropped: Vec<Connection<P>> = Vec::new();
        let ghost mut done: int = 0;
        proof {
            reveal(Seq::filter);
            assert(all.subrange(0, 0).filter(keep) =~= Seq::<PoolEntry<P>>::empty());
            assert(all.subrange(0, 0).filter(lose).map_values(conn) =~= Seq::<
                Connection<P>,
            >::empty());
        }
        while rest.len() > 0
            invariant
                0 <= done <= all.len(),
                rest@ == all.skip(done),
                self.config == old(self).config,
                self.ssh_configs == old(self).ssh_configs,
                keep == (|e: PoolEntry<P>| survives(e, now, max_idle)),
                lose == (|e: PoolEntry<P>| !survives(e, now, max_idle)),
                conn == (|e: PoolEntry<P>| e.connection),
                self.entries@ == all.subrange(0, done).filter(keep),
                dropped@ == all.subrange(0, done).filter(lose).map_values(conn),
            decreases rest.len(),
        {
            let e = rest.remove(0);
            proof {
                reveal(Seq::filter);
                let head = all.subrange(0, done);
                let more = all.subrange(0, done + 1);
                assert(e == all[done]);
                assert(more.drop_last() =~= head);
                assert(more.last() == e);
                assert(rest@ =~= all.skip(done + 1));
            }
            let stays: bool = (now <= e.last_used || now - e.last_used <= max_idle)
                && e.connection.is_connected();
            if stays {
                self.entries.push(e);
                proof {
                    reveal(Seq::filter);
                    assert(all.subrange(0, done + 1).filter(lose) =~= all.subrange(
                        0,
                        done,
                    ).filter(lose));
                }
            } else {
                dropped.push(e.connection);
                proof {
                    reveal(Seq::filter);
                    assert(all.subrange(0, done + 1).filter(keep) =~= all.subrange(
                        0,
                        done,
                    ).filter(keep));
                    assert(dropped@ =~= all.subrange(0, done + 1).filter(lose).map_values(conn));
                }
            }
            proof {
                done = done + 1;
            }
        }
        assert(all.subrange(0, all.len() as int) == all);
        dropped
    }

    /// Empties the pool and hands out every pooled connection, to be closed.
    pub fn stop(&mut self) -> (closed: Vec<PoolEntry<P>>)
        ensures
            closed@ == old(self).pooled(),
            final(self).pooled() == Seq::<PoolEntry<P>>::empty(),
            final(self).spec_config() == old(self).spec_config(),
    {
        let mut closed: Vec<PoolEntry<P>> = Vec::new();
        core::mem::swap(&mut closed, &mut self.entries);
        closed
    }

    /// Numbers about the pool.
    pub fn stats(&self) -> (s: PoolStats)
        ensures
            s.total_connections == self.pooled().len(),
            s.healthy_connections == count_healthy(self.pooled()),
            s.hosts == count_hosts(self.pooled()),
    {
        let mut healthy: usize = 0;
        let mut hosts: usize = 0;
        let mut i: usize = 0;
        while i < self.entries.len()
            invariant
                i <= self.entries@.len(),
                healthy == count_healthy(self.entries@.subrange(0, i as int)),
                hosts == count_hosts(self.entries@.subrange(0, i as int)),
                healthy <= i,
                hosts <= i,
            decreases self.entries@.len() - i,
        {
            let ghost head = self.entries@.subrange(0, i as int);
            let ghost more = self.entries@.subrange(0, i + 1);
            assert(more.drop_last() =~= head);
            assert(more.last() == self.entries@[i as int]);
            if self.entries[i].healthy {
                healthy = healthy + 1;
            }
            let mut seen: bool = false;
            let mut k: usize = 0;
            while k < i
                invariant
                    k <= i < self.entries@.len(),
                    head == self.entries@.subrange(0, i as int),
                    seen == (count_for(head.subrange(0, k as int), self.entries@[i as int].host@)
                        > 0),
                decreases i - k,
            {
                let ghost part = head.subrange(0, k + 1);
                assert(part.drop_last() =~= head.subrange(0, k as int));
                assert(part.last() == self.entries@[k as int]);
                if str_eq(self.entries[k].host.as_str(), self.entries[i].host.as_str()) {
                    seen = true;
                }
                k = k + 1;
            }
            assert(head.subrange(0, i as int) == head);
            if !seen {
                hosts = hosts + 1;
            }
            i = i + 1;
        }
        assert(self.entries@.subrange(0, self.entries@.len() as int) == self.entries@);
        PoolStats { total_connections: self.entries.len(), healthy_connections: healthy, hosts }
    }

    /// What follows the connection attempt number `attempt`, counted from
    /// one: a connection that stands is done; after a failure or a timeout
    /// there is another attempt after the retry delay while attempts are
    /// left, and then the last error is final.
    pub fn after_attempt(&self, attempt: u32, outcome: AttemptOutcome<P>) -> (step: RetryStep<P>)
        ensures
            match outcome {
                AttemptOutcome::Connected(c) => step == RetryStep::Done(c),
                AttemptOutcome::Failed(e) => if attempt < self.spec_config().max_retries {
                    step == RetryStep::<P>::RetryAfter(self.spec_config().retry_delay)
                } else {
                    step == RetryStep::<P>::GiveUp(e)
                },
                AttemptOutcome::TimedOut => if attempt < self.spec_config().max_retries {
                    step == RetryStep::<P>::RetryAfter(self.spec_config().retry_delay)
                } else {
                    step == RetryStep::<P>::GiveUp(TransportError::Timeout)
                },
            },
    {
        match outcome {
            AttemptOutcome::Connected(c) => RetryStep::Done(c),
            AttemptOutcome::Failed(e) => {
                if attempt < self.config.max_retries {
                    RetryStep::RetryAfter(self.config.retry_delay.clone())
                } else {
                    RetryStep::GiveUp(e)
                }
            },
            AttemptOutcome::TimedOut => {
                if attempt < self.config.max_retries {
                    RetryStep::RetryAfter(self.config.retry_delay.clone())
                } else {
                    RetryStep::GiveUp(TransportError::Timeout)
                }
            },
        }
    }

    /// Whether there is a first attempt at all; without one, connecting
    /// fails at once.
    pub fn first_attempt(&self) -> (r: Result<(), TransportError>)
        ensures
            self.spec_config().max_retries > 0 ==> r is Ok,
            self.spec_config().max_retries == 0 ==> (r matches Err(
                TransportError::Connection(m),
            ) && m@ == "All connection attempts failed"@),
    {
        if self.config.max_retries > 0 {
            Ok(())
        } else {
            Err(TransportError::Connection(copy_str("All connection attempts failed")))
        }
    }
}

/// A connection on loan from the pool.
#[derive(Debug)]
pub struct PooledConnection<P> {
    id: RequestId,
    host_key: String,
    connection: Option<Connection<P>>,
}

impl<P> PooledConnection<P> {
    /// The connection on loan.
    pub closed spec fn spec_connection(&self) -> Option<Connection<P>> {
        self.connection
    }

    /// The host that the connection leads to.
    pub closed spec fn spec_host_key(&self) -> Seq<char> {
        self.host_key@
    }

    /// The id of the loan.
    pub closed spec fn spec_id(&self) -> RequestId {
        self.id
    }

    /// A loan of `connection` for `host_key`, with a new id.
    pub fn new(host_key: String, connection: Connection<P>) -> (p: PooledConnection<P>)
        ensures
            p.spec_host_key() == host_key@,
            p.spec_connection() == Some(connection),
    {
        PooledConnection {
            id: crate::proto::message::fresh_request_id(),
            host_key,
            connection: Some(connection),
        }
    }

    /// The id of the loan.
    pub fn id(&self) -> (id: RequestId)
        ensures
            id == self.spec_id(),
    {
        self.id
    }

    /// The host that the connection leads to.
    pub fn host_key(&self) -> (h: &str)
        ensures
            h@ == self.spec_host_key(),
    {
        self.host_key.as_str()
    }

    /// The connection, to work with.
    pub fn connection_mut(&mut self) -> (c: &mut Option<Connection<P>>)
        ensures
            *c == old(self).spec_connection(),
            final(self).spec_connection() == *final(c),
            final(self).spec_host_key() == old(self).spec_host_key(),
            final(self).spec_id() == old(self).spec_id(),
    {
        &mut self.connection
    }

    /// Takes the connection out of the loan.
    pub fn take_connection(&mut self) -> (c: Option<Connection<P>>)
        ensures
            c == old(self).spec_connection(),
            final(self).spec_connection() is None,
            final(self).spec_host_key() == old(self).spec_host_key(),
            final(self).spec_id() == old(self).spec_id(),
    {
        self.connection.take()
    }

    /// Whether the loan holds a connection that is in use.
    pub fn is_connected(&self) -> (r: bool)
        ensures
            r == match self.spec_connection() {
                Some(c) => c.connected(),
                None => false,
            },
    {
        match &self.connection {
            Some(c) => c.is_connected(),
            None => false,
        }
    }
}

} // verus!
