//! Statistics: what one sample of a container's counters amounts to.
use vstd::prelude::*;

use crate::units;

verus! {

/// Live resource usage for the selected container. The CPU percentage is a
/// double-precision number, kept as its bits.
#[derive(Debug, Clone, Copy, PartialEq, Eq, Structural)]
pub struct StatsInfo {
    pub cpu_percent_bits: u64,
    pub mem_usage: u64,
    pub mem_limit: u64,
    pub net_rx: u64,
    pub net_tx: u64,
}

impl Default for StatsInfo {
    fn default() -> (r: Self)
        ensures
            r == (StatsInfo {
                cpu_percent_bits: 0,
                mem_usage: 0,
                mem_limit: 0,
                net_rx: 0,
                net_tx: 0,
            }),
    {
        StatsInfo { cpu_percent_bits: 0, mem_usage: 0, mem_limit: 0, net_rx: 0, net_tx: 0 }
    }
}

impl StatsInfo {
    /// The memory used and the memory available, or `None` where no limit is
    /// known.
    pub fn memory_share(&self) -> (r: Option<(u64, u64)>)
        ensures
            r == (if self.mem_limit > 0 {
                Some((self.mem_usage, self.mem_limit))
            } else {
                None
            }),
    {
        if self.mem_limit > 0 {
            Some((self.mem_usage, self.mem_limit))
        } else {
            None
        }
    }
}

/// The byte counters of one network interface.
#[derive(Debug, Clone, Copy, PartialEq, Eq, Structural)]
pub struct NetworkCounters {
    pub rx_bytes: u64,
    pub tx_bytes: u64,
}

/// One sample of a container's counters, with the CPU counters of the sample
/// before it.
#[derive(Debug)]
pub struct StatsSample {
    pub cpu_total: u64,
    pub cpu_total_before: u64,
    pub system_cpu: Option<u64>,
    pub system_cpu_before: Option<u64>,
    pub online_cpus: Option<u64>,
    pub mem_usage: Option<u64>,
    pub mem_limit: Option<u64>,
    pub networks: Option<Vec<NetworkCounters>>,
}

/// The counters that a CPU percentage is computed from.
#[derive(Debug, Clone, Copy, PartialEq, Eq, Structural)]
pub struct CpuCounters {
    pub total: u64,
    pub total_before: u64,
    pub system: u64,
    pub system_before: u64,
    pub online_cpus: u64,
}

/// The bytes received over all interfaces.
pub open spec fn received(networks: Seq<NetworkCounters>) -> nat
    decreases networks.len(),
{
    if networks.len() == 0 {
        0
    } else {
        received(networks.drop_last()) + networks.last().rx_bytes as nat
    }
}

/// The bytes sent over all interfaces.
pub open spec fn sent(networks: Seq<NetworkCounters>) -> nat
    decreases networks.len(),
{
    if networks.len() == 0 {
        0
    } else {
        sent(networks.drop_last()) + networks.last().tx_bytes as nat
    }
}

/// The value, or `default` where there is none.
pub open spec fn value_or(value: Option<u64>, default: u64) -> u64 {
    match value {
        Some(v) => v,
        None => default,
    }
}

impl StatsSample {
    /// The interfaces of the sample: none if it reports no networks.
    pub open spec fn interfaces(self) -> Seq<NetworkCounters> {
        match self.networks {
            Some(list) => list@,
            None => Seq::empty(),
        }
    }

    /// The network totals fit in 64 bits.
    pub open spec fn totals_fit(self) -> bool {
        &&& received(self.interfaces()) <= u64::MAX
        &&& sent(self.interfaces()) <= u64::MAX
    }

    /// As double-precision numbers, the system's CPU time has grown and the
    /// container's has not shrunk.
    pub open spec fn cpu_advanced(self) -> bool {
        &&& units::nearest_double(value_or(self.system_cpu, 0) as nat) > units::nearest_double(
            value_or(self.system_cpu_before, 0) as nat,
        )
        &&& units::nearest_double(self.cpu_total as nat) >= units::nearest_double(
            self.cpu_total_before as nat,
        )
    }

    /// The number of CPUs that the percentage counts, at least one.
    pub open spec fn cpus(self) -> u64 {
        if value_or(self.online_cpus, 1) == 0 {
            1
        } else {
            value_or(self.online_cpus, 1)
        }
    }

    /// The counters to compute a CPU percentage from, or `None` where the
    /// percentage is zero because the counters have not advanced.
    pub fn cpu_counters(&self) -> (r: Option<CpuCounters>)
        ensures
            r == (if self.cpu_advanced() {
                Some(
                    CpuCounters {
                        total: self.cpu_total,
                        total_before: self.cpu_total_before,
                        system: value_or(self.system_cpu, 0),
                        system_before: value_or(self.system_cpu_before, 0),
                        online_cpus: self.cpus(),
                    },
                )
            } else {
                None
            }),
    {
        let system: u64 = self.system_cpu.unwrap_or(0);
        let system_before: u64 = self.system_cpu_before.unwrap_or(0);
        let reported: u64 = self.online_cpus.unwrap_or(1);
        let online_cpus: u64 = if reported == 0 {
            1
        } else {
            reported
        };
        let system_grown = units::to_nearest_double(system) > units::to_nearest_double(
            system_before,
        );
        let total_kept = units::to_nearest_double(self.cpu_total) >= units::to_nearest_double(
            self.cpu_total_before,
        );
        if system_grown && total_kept {
            Some(
                CpuCounters {
                    total: self.cpu_total,
                    total_before: self.cpu_total_before,
                    system,
                    system_before,
                    online_cpus,
                },
            )
        } else {
            None
        }
    }
}

/// The bytes received and sent over all interfaces, or `None` where a total
/// does not fit in 64 bits.
pub fn network_totals(networks: &Vec<NetworkCounters>) -> (r: Option<(u64, u64)>)
    ensures
        match r {
            Some((rx, tx)) => rx == received(networks@) && tx == sent(networks@),
            None => received(networks@) > u64::MAX || sent(networks@) > u64::MAX,
        },
{
    let mut rx: u64 = 0;
    let mut tx: u64 = 0;
    let mut i: usize = 0;
    while i < networks.len()
        invariant
            i <= networks.len(),
            rx == received(networks@.take(i as int)),
            tx == sent(networks@.take(i as int)),
        decreases networks.len() - i,
    {
        let n = networks[i];
        proof {
            assert(networks@.take(i + 1).drop_last() =~= networks@.take(i as int));
            lemma_totals_grow(networks@, i + 1);
        }
        if rx > u64::MAX - n.rx_bytes || tx > u64::MAX - n.tx_bytes {
            return None;
        }
        rx = rx + n.rx_bytes;
        tx = tx + n.tx_bytes;
        i = i + 1;
    }
    assert(networks@.take(networks@.len() as int) =~= networks@);
    Some((rx, tx))
}

/// The totals over the first `n` interfaces are part of the whole.
proof fn lemma_totals_grow(networks: Seq<NetworkCounters>, n: int)
    requires
        0 <= n <= networks.len(),
    ensures
        received(networks.take(n)) <= received(networks),
        sent(networks.take(n)) <= sent(networks),
    decreases networks.len(),
{
    if n < networks.len() {
        lemma_totals_grow(networks.drop_last(), n);
        assert(networks.drop_last().take(n) =~= networks.take(n));
    } else {
        assert(networks.take(n) =~= networks);
    }
}

// ---------------------------------------------------------------------
// Laws
// ---------------------------------------------------------------------

/// Without interfaces nothing is received or sent, and over one interface
/// what its counters say, each counter for itself.
pub proof fn totals_of_one_interface(n: NetworkCounters)
    ensures
        received(Seq::empty()) == 0,
        sent(Seq::empty()) == 0,
        received(seq![n]) == n.rx_bytes,
        sent(seq![n]) == n.tx_bytes,
{
    reveal_with_fuel(received, 2);
    reveal_with_fuel(sent, 2);
    assert(seq![n].drop_last() =~= Seq::empty());
}

/// The totals of two lists of interfaces add up.
pub proof fn totals_add_up(a: Seq<NetworkCounters>, b: Seq<NetworkCounters>)
    ensures
        received(a + b) == received(a) + received(b),
        sent(a + b) == sent(a) + sent(b),
    decreases b.len(),
{
    if b.len() == 0 {
        assert(a + b =~= a);
    } else {
        totals_add_up(a, b.drop_last());
        assert((a + b).drop_last() =~= a + b.drop_last());
        assert((a + b).last() == b.last());
    }
}

/// What is sent does not depend on what is received, and the other way
/// round.
pub proof fn totals_are_independent(a: Seq<NetworkCounters>, b: Seq<NetworkCounters>)
    requires
        a.len() == b.len(),
    ensures
        (forall|i: int| 0 <= i < a.len() ==> (#[trigger] a[i]).tx_bytes == b[i].tx_bytes) ==> sent(
            a,
        ) == sent(b),
        (forall|i: int| 0 <= i < a.len() ==> (#[trigger] a[i]).rx_bytes == b[i].rx_bytes)
            ==> received(a) == received(b),
    decreases a.len(),
{
    if a.len() > 0 {
        let x = a.drop_last();
        let y = b.drop_last();
        totals_are_independent(x, y);
        if forall|i: int| 0 <= i < a.len() ==> (#[trigger] a[i]).tx_bytes == b[i].tx_bytes {
            assert forall|i: int| 0 <= i < x.len() implies (#[trigger] x[i]).tx_bytes
                == y[i].tx_bytes by {
                assert(a[i].tx_bytes == b[i].tx_bytes);
            }
            assert(a[a.len() - 1].tx_bytes == b[a.len() - 1].tx_bytes);
        }
        if forall|i: int| 0 <= i < a.len() ==> (#[trigger] a[i]).rx_bytes == b[i].rx_bytes {
            assert forall|i: int| 0 <= i < x.len() implies (#[trigger] x[i]).rx_bytes
                == y[i].rx_bytes by {
                assert(a[i].rx_bytes == b[i].rx_bytes);
            }
            assert(a[a.len() - 1].rx_bytes == b[a.len() - 1].rx_bytes);
        }
    }
}

/// A sample without networks has no interfaces, and one with networks has
/// those; its totals fit exactly if both of them do.
pub proof fn interfaces_of_a_sample(sample: StatsSample)
    ensures
        sample.networks is None ==> sample.interfaces().len() == 0 && sample.totals_fit(),
        sample.networks is Some ==> sample.interfaces() == sample.networks->0@,
        sample.totals_fit() <==> received(sample.interfaces()) <= 0xffff_ffff_ffff_ffff && sent(
            sample.interfaces(),
        ) <= 0xffff_ffff_ffff_ffff,
{
}

/// A counter counts as what it says, and as the default where it is missing.
pub proof fn missing_counters_have_a_default(value: u64, default: u64)
    ensures
        value_or(Some(value), default) == value,
        value_or(None, default) == default,
{
}

/// Counters below two to the power 53 have advanced exactly if the system's
/// CPU time has grown and the container's has not shrunk; a missing time of
/// the system counts as zero.
pub proof fn when_counters_have_advanced(sample: StatsSample, system: u64, before: u64)
    requires
        sample.system_cpu == Some(system) || (sample.system_cpu is None && system == 0),
        sample.system_cpu_before == Some(before) || (sample.system_cpu_before is None && before
            == 0),
        system < 0x20_0000_0000_0000,
        before < 0x20_0000_0000_0000,
        sample.cpu_total < 0x20_0000_0000_0000,
        sample.cpu_total_before < 0x20_0000_0000_0000,
    ensures
        sample.cpu_advanced() <==> system > before && sample.cpu_total >= sample.cpu_total_before,
{
    units::small_counts_are_exact(system as nat);
    units::small_counts_are_exact(before as nat);
    units::small_counts_are_exact(sample.cpu_total as nat);
    units::small_counts_are_exact(sample.cpu_total_before as nat);
}

/// Counters of any size are compared as the double-precision numbers nearest
/// to them.
pub proof fn counters_are_compared_as_doubles(sample: StatsSample, system: u64, before: u64)
    requires
        sample.system_cpu == Some(system) || (sample.system_cpu is None && system == 0),
        sample.system_cpu_before == Some(before) || (sample.system_cpu_before is None && before
            == 0),
    ensures
        sample.cpu_advanced() <==> units::nearest_double(system as nat) > units::nearest_double(
            before as nat,
        ) && units::nearest_double(sample.cpu_total as nat) >= units::nearest_double(
            sample.cpu_total_before as nat,
        ),
{
}

/// As many CPUs count as are reported, and one if none or no number is.
pub proof fn how_many_cpus_count(sample: StatsSample)
    ensures
        sample.online_cpus is None ==> sample.cpus() == 1,
        sample.online_cpus == Some(0u64) ==> sample.cpus() == 1,
        sample.online_cpus is Some && sample.online_cpus->0 > 0 ==> sample.cpus()
            == sample.online_cpus->0,
{
}

/// What a sample amounts to, given the CPU percentage. A counter that the
/// sample lacks counts as zero. `None` where a network total does not fit in
/// 64 bits.
pub fn compute_stats(sample: &StatsSample, cpu_percent_bits: u64) -> (r: Option<StatsInfo>)
    ensures
        r == (if sample.totals_fit() {
            Some(
                StatsInfo {
                    cpu_percent_bits,
                    mem_usage: value_or(sample.mem_usage, 0),
                    mem_limit: value_or(sample.mem_limit, 0),
                    net_rx: received(sample.interfaces()) as u64,
                    net_tx: sent(sample.interfaces()) as u64,
                },
            )
        } else {
            None
        }),
{
    let totals = match &sample.networks {
        Some(list) => network_totals(list),
        None => Some((0, 0)),
    };
    match totals {
        Some((net_rx, net_tx)) => Some(
            StatsInfo {
                cpu_percent_bits,
                mem_usage: sample.mem_usage.unwrap_or(0),
                mem_limit: sample.mem_limit.unwrap_or(0),
                net_rx,
                net_tx,
            },
        ),
        None => None,
    }
}

} // verus!
