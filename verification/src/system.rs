//! The metrics sampler: plain-value readings of the host's counters, the
//! derived utilization ratios, and the snapshot the renderer draws from.
//!
//! The process's entry point gathers raw readings from the operating system
//! and hands them in as a [`SystemReading`]; everything derived from a
//! reading — means, percentages, sensor lookups, fallbacks — is computed
//! here.  Absent data (a missing mount, sensor or interface) is never an
//! error: it becomes a sentinel or an absent value.

use vstd::arithmetic::div_mod::{
    lemma_div_by_multiple, lemma_div_is_ordered, lemma_div_multiples_vanish_fancy,
};
use vstd::arithmetic::mul::lemma_mul_inequality;
use vstd::prelude::*;

use crate::text::{spec_decimal, u64_to_string};

verus! {

/// A utilization in `[0, 1]` as an exact fraction, kept well formed by
/// construction: a positive denominator and a numerator no greater than it.
#[derive(Clone, Copy, PartialEq, Eq, Structural, Debug)]
pub struct Ratio {
    pub num: u64,
    pub den: u64,
}

impl Ratio {
    pub open spec fn wf(self) -> bool {
        0 < self.den && self.num <= self.den
    }

    /// `num / den` clamped into `[0, 1]`: a zero denominator yields zero and
    /// a numerator over the denominator is capped at one.
    pub open spec fn spec_new(num: u64, den: u64) -> Ratio {
        if den == 0 {
            Ratio { num: 0, den: 1 }
        } else if num > den {
            Ratio { num: den, den: den }
        } else {
            Ratio { num: num, den: den }
        }
    }

    /// The gauge bar width in pixels: the ratio of the full 74-pixel track,
    /// truncated to a whole pixel.
    pub open spec fn spec_bar_width(self) -> int {
        (self.num as int * 74) / (self.den as int)
    }

    /// The ratio as a whole percentage, rounded to nearest (halves up).
    pub open spec fn spec_percent(self) -> int {
        (self.num as int * 200 + self.den as int) / (2 * self.den as int)
    }

    pub fn new(num: u64, den: u64) -> (r: Ratio)
        ensures
            r == Self::spec_new(num, den),
            r.wf(),
    {
        if den == 0 {
            Ratio { num: 0, den: 1 }
        } else if num > den {
            Ratio { num: den, den: den }
        } else {
            Ratio { num, den }
        }
    }

    /// The zero ratio.
    pub fn zero() -> (r: Ratio)
        ensures
            r == (Ratio { num: 0, den: 1 }),
            r.wf(),
    {
        Ratio { num: 0, den: 1 }
    }

    /// For every well-formed ratio the rendered bar fits the 74-pixel track
    /// and the displayed percentage stays within 0 to 100.
    pub proof fn lemma_gauge_in_range(self)
        requires
            self.wf(),
        ensures
            0 <= self.spec_bar_width() <= 74,
            0 <= self.spec_percent() <= 100,
    {
        let n = self.num as int;
        let d = self.den as int;
        lemma_mul_inequality(n, d, 74);
        assert(n * 74 == 74 * n) by (nonlinear_arith);
        assert(d * 74 == 74 * d) by (nonlinear_arith);
        lemma_div_is_ordered(n * 74, d * 74, d);
        lemma_div_by_multiple(74, d);
        assert(74 * d == d * 74) by (nonlinear_arith);
        lemma_mul_inequality(n, d, 200);
        lemma_div_is_ordered(n * 200 + d, d * 200 + d, 2 * d);
        assert(d * 200 + d == (2 * d) * 100 + d) by (nonlinear_arith);
        lemma_div_multiples_vanish_fancy(100, d, 2 * d);
    }

    /// The bar width in pixels for this ratio.
    pub fn bar_width(&self) -> (w: u32)
        requires
            self.wf(),
        ensures
            w as int == self.spec_bar_width(),
            w <= 74,
    {
        proof {
            self.lemma_gauge_in_range();
        }
        let w: u128 = (self.num as u128) * 74 / (self.den as u128);
        w as u32
    }

    /// The whole-number percentage for this ratio.
    pub fn percent(&self) -> (p: u32)
        requires
            self.wf(),
        ensures
            p as int == self.spec_percent(),
            p <= 100,
    {
        proof {
            self.lemma_gauge_in_range();
        }
        let p: u128 = ((self.num as u128) * 200 + (self.den as u128)) / (2 * (self.den as u128));
        p as u32
    }
}

/// An IPv4 address as four plain octets.
#[derive(Clone, Copy, PartialEq, Eq, Structural, Debug)]
pub struct IpV4 {
    pub a: u8,
    pub b: u8,
    pub c: u8,
    pub d: u8,
}

/// The dotted-decimal text of an address.
pub open spec fn spec_ip_text(ip: IpV4) -> Seq<char> {
    spec_decimal(ip.a as nat) + seq!['.'] + spec_decimal(ip.b as nat) + seq!['.'] + spec_decimal(
        ip.c as nat,
    ) + seq!['.'] + spec_decimal(ip.d as nat)
}

impl IpV4 {
    /// The unspecified address, shown when no interface has an address.
    pub fn unspecified() -> (r: IpV4)
        ensures
            r == (IpV4 { a: 0, b: 0, c: 0, d: 0 }),
    {
        IpV4 { a: 0, b: 0, c: 0, d: 0 }
    }

    /// Renders the address in dotted decimal.
    pub fn to_text(&self) -> (r: String)
        ensures
            r@ == spec_ip_text(*self),
    {
        let mut s = u64_to_string(self.a as u64);
        s.append(".");
        let sb = u64_to_string(self.b as u64);
        s.append(sb.as_str());
        s.append(".");
        let sc = u64_to_string(self.c as u64);
        s.append(sc.as_str());
        s.append(".");
        let sd = u64_to_string(self.d as u64);
        s.append(sd.as_str());
        proof {
            reveal_strlit(".");
            assert(s@ =~= spec_ip_text(*self));
        }
        s
    }
}

/// One thermal sensor's reading: its label and its temperature in hundredths
/// of a degree Celsius.
#[derive(Clone, Debug)]
pub struct ComponentReading {
    pub label: String,
    pub temperature_centi: i64,
}

/// One network interface: its name and its IPv4 addresses in enumeration
/// order.
#[derive(Clone, Debug)]
pub struct NetworkReading {
    pub name: String,
    pub addrs: Vec<IpV4>,
}

/// One mounted filesystem: its mount point and its sizes in bytes.
#[derive(Clone, Debug)]
pub struct DiskReading {
    pub mount_point: String,
    pub total_bytes: u64,
    pub available_bytes: u64,
}

/// One raw sample of every counter the dashboard shows, as plain values.
/// Per-core CPU load comes in basis points (hundredths of a percent).
#[derive(Clone, Debug)]
pub struct SystemReading {
    pub cpu_core_load_bp: Vec<u16>,
    pub used_memory: u64,
    pub total_memory: u64,
    pub components: Vec<ComponentReading>,
    pub networks: Vec<NetworkReading>,
    pub disks: Vec<DiskReading>,
    pub uptime_seconds: u64,
    pub hostname: Option<String>,
}

/// The label of the platform's primary CPU thermal zone.
pub open spec fn cpu_sensor_label() -> Seq<char> {
    "cpu_thermal temp1"@
}

/// The mount point of the root filesystem.
pub open spec fn root_mount_point() -> Seq<char> {
    "/"@
}

/// The sum of the per-core loads.
pub open spec fn spec_load_sum(s: Seq<u16>) -> int
    decreases s.len(),
{
    if s.len() == 0 {
        0
    } else {
        spec_load_sum(s.drop_last()) + s.last()
    }
}

/// Aggregate CPU utilization: the arithmetic mean of the per-core loads,
/// truncated to a basis point, over the 10000 basis points of full load; the
/// zero ratio when there are no cores.
pub open spec fn spec_cpu_ratio(s: Seq<u16>) -> Ratio {
    if s.len() == 0 {
        Ratio { num: 0, den: 1 }
    } else {
        Ratio::spec_new((spec_load_sum(s) / s.len() as int) as u64, 10000)
    }
}

/// The temperature of the first sensor labeled as the CPU thermal zone, or
/// zero when none is.
pub open spec fn spec_cpu_temp(s: Seq<ComponentReading>) -> int
    decreases s.len(),
{
    if s.len() == 0 {
        0
    } else if s.first().label@ == cpu_sensor_label() {
        s.first().temperature_centi as int
    } else {
        spec_cpu_temp(s.drop_first())
    }
}

/// The first address of the first interface with the given name that has an
/// address at all.
pub open spec fn spec_find_ip(s: Seq<NetworkReading>, name: Seq<char>) -> Option<IpV4>
    decreases s.len(),
{
    if s.len() == 0 {
        None
    } else if s.first().name@ == name && s.first().addrs@.len() > 0 {
        Some(s.first().addrs@[0])
    } else {
        spec_find_ip(s.drop_first(), name)
    }
}

/// The primary IPv4 address: wired before wireless, the unspecified address
/// when neither interface has one.
pub open spec fn spec_primary_ip(s: Seq<NetworkReading>) -> IpV4 {
    match spec_find_ip(s, "eth0"@) {
        Some(ip) => ip,
        None => match spec_find_ip(s, "wlan0"@) {
            Some(ip) => ip,
            None => IpV4 { a: 0, b: 0, c: 0, d: 0 },
        },
    }
}

/// Root filesystem utilization: `(total - available) / total` for the first
/// mount at the root path, absent when there is none.  A reading with
/// `available > total` counts as empty rather than failing.
pub open spec fn spec_root_disk(s: Seq<DiskReading>) -> Option<Ratio>
    decreases s.len(),
{
    if s.len() == 0 {
        None
    } else if s.first().mount_point@ == root_mount_point() {
        let d = s.first();
        let used: u64 = if d.available_bytes <= d.total_bytes {
            (d.total_bytes - d.available_bytes) as u64
        } else {
            0
        };
        Some(Ratio::spec_new(used, d.total_bytes))
    } else {
        spec_root_disk(s.drop_first())
    }
}

/// A found address was assigned to an interface of the given name: it is
/// the first address of some entry with that name.
pub proof fn lemma_find_ip_is_assigned(s: Seq<NetworkReading>, name: Seq<char>, ip: IpV4)
    requires
        spec_find_ip(s, name) == Some(ip),
    ensures
        exists|i: int|
            0 <= i < s.len() && s[i].name@ == name && s[i].addrs@.len() > 0 && ip == s[i].addrs@[0],
    decreases s.len(),
{
    if s.first().name@ == name && s.first().addrs@.len() > 0 {
        assert(s[0].name@ == name && s[0].addrs@.len() > 0 && ip == s[0].addrs@[0]);
    } else {
        lemma_find_ip_is_assigned(s.drop_first(), name, ip);
        let j = choose|j: int|
            0 <= j < s.drop_first().len() && s.drop_first()[j].name@ == name && s.drop_first()[
                j
            ].addrs@.len() > 0 && ip == s.drop_first()[j].addrs@[0];
        assert(s[j + 1].name@ == name && s[j + 1].addrs@.len() > 0 && ip == s[j + 1].addrs@[0]);
    }
}

/// The primary address is the unspecified address exactly when neither the
/// wired nor the wireless interface has an address — provided no interface
/// is itself assigned the unspecified address.
pub proof fn lemma_primary_ip_unspecified_iff_no_match(s: Seq<NetworkReading>)
    requires
        forall|i: int, j: int|
            0 <= i < s.len() && 0 <= j < s[i].addrs@.len() ==> s[i].addrs@[j] != (IpV4 {
                a: 0,
                b: 0,
                c: 0,
                d: 0,
            }),
    ensures
        (spec_primary_ip(s) == (IpV4 { a: 0, b: 0, c: 0, d: 0 })) <==> (spec_find_ip(s, "eth0"@)
            is None && spec_find_ip(s, "wlan0"@) is None),
{
    if spec_find_ip(s, "eth0"@) is Some {
        lemma_find_ip_is_assigned(s, "eth0"@, spec_find_ip(s, "eth0"@)->Some_0);
    } else if spec_find_ip(s, "wlan0"@) is Some {
        lemma_find_ip_is_assigned(s, "wlan0"@, spec_find_ip(s, "wlan0"@)->Some_0);
    }
}

/// The root filesystem's utilization is absent exactly when no entry is
/// mounted at the root path.
pub proof fn lemma_root_disk_absent_iff_no_root_mount(s: Seq<DiskReading>)
    ensures
        (spec_root_disk(s) is None) <==> (forall|i: int|
            0 <= i < s.len() ==> s[i].mount_point@ != root_mount_point()),
    decreases s.len(),
{
    if s.len() > 0 {
        lemma_root_disk_absent_iff_no_root_mount(s.drop_first());
        if s.first().mount_point@ != root_mount_point() {
            assert forall|i: int|
                0 <= i < s.len() && s[i].mount_point@ == root_mount_point() implies !(
            spec_root_disk(s) is None) by {
                assert(s.drop_first()[i - 1] == s[i]);
            }
        }
    }
}

/// The host name, or the empty string when the system does not report one.
pub open spec fn spec_hostname(h: Option<String>) -> Seq<char> {
    match h {
        Some(s) => s@,
        None => Seq::<char>::empty(),
    }
}

/// The uptime text: day-bucketed once a full day has elapsed, with the hours
/// field carrying the full elapsed hours (deliberately not reduced modulo
/// 24), and hours/minutes/seconds below a day.
pub open spec fn spec_uptime_text(up: nat) -> Seq<char> {
    let days = up / 86400;
    let hours = up / 3600;
    let minutes = (up / 60) % 60;
    let seconds = up % 60;
    if days > 0 {
        spec_decimal(days) + seq!['d'] + spec_decimal(hours) + seq!['h'] + spec_decimal(minutes)
            + seq!['m']
    } else {
        spec_decimal(hours) + seq!['h'] + spec_decimal(minutes) + seq!['m'] + spec_decimal(seconds)
            + seq!['s']
    }
}

/// Renders an uptime in whole seconds as the dashboard's footer shows it.
pub fn format_uptime(up: u64) -> (r: String)
    ensures
        r@ == spec_uptime_text(up as nat),
{
    let days: u64 = up / 86400;
    let hours: u64 = up / 3600;
    let minutes: u64 = (up / 60) % 60;
    let seconds: u64 = up % 60;
    let mut s: String;
    if days > 0 {
        s = u64_to_string(days);
        s.append("d");
        let sh = u64_to_string(hours);
        s.append(sh.as_str());
        s.append("h");
        let sm = u64_to_string(minutes);
        s.append(sm.as_str());
        s.append("m");
    } else {
        s = u64_to_string(hours);
        s.append("h");
        let sm = u64_to_string(minutes);
        s.append(sm.as_str());
        s.append("m");
        let ss = u64_to_string(seconds);
        s.append(ss.as_str());
        s.append("s");
    }
    proof {
        reveal_strlit("d");
        reveal_strlit("h");
        reveal_strlit("m");
        reveal_strlit("s");
        assert(s@ =~= spec_uptime_text(up as nat));
    }
    s
}

/// The sum of the loads is at most 65535 per core.
proof fn lemma_load_sum_bound(s: Seq<u16>)
    ensures
        0 <= spec_load_sum(s) <= s.len() * 65535,
    decreases s.len(),
{
    if s.len() == 0 {
    } else {
        lemma_load_sum_bound(s.drop_last());
        assert((s.len() - 1) * 65535 + 65535 == s.len() * 65535) by (nonlinear_arith);
    }
}

/// Mean per-core load over the cores of one reading.
fn cpu_ratio_of(cores: &Vec<u16>) -> (r: Ratio)
    ensures
        r == spec_cpu_ratio(cores@),
        r.wf(),
{
    let n = cores.len();
    if n == 0 {
        return Ratio::zero();
    }
    let mut sum: u128 = 0;
    let mut i: usize = 0;
    while i < n
        invariant
            i <= n,
            n == cores@.len(),
            sum == spec_load_sum(cores@.take(i as int)),
        decreases n - i,
    {
        proof {
            lemma_load_sum_bound(cores@.take(i as int));
            assert(cores@.take((i + 1) as int).drop_last() =~= cores@.take(i as int));
            lemma_mul_inequality(i as int, cores@.len() as int, 65535);
        }
        sum = sum + cores[i] as u128;
        i = i + 1;
    }
    proof {
        assert(cores@.take(n as int) =~= cores@);
        lemma_load_sum_bound(cores@);
        lemma_div_is_ordered(spec_load_sum(cores@), cores@.len() as int * 65535, cores@.len() as int);
        lemma_div_by_multiple(65535, cores@.len() as int);
        assert(65535 * cores@.len() as int == cores@.len() as int * 65535) by (nonlinear_arith);
    }
    let mean: u128 = sum / (n as u128);
    Ratio::new(mean as u64, 10000)
}

/// First sensor whose label names the CPU thermal zone.
fn cpu_temp_of(components: &Vec<ComponentReading>) -> (t: i64)
    ensures
        t as int == spec_cpu_temp(components@),
{
    let n = components.len();
    let mut i: usize = 0;
    proof {
        assert(components@.skip(0) =~= components@);
    }
    while i < n
        invariant
            i <= n,
            n == components@.len(),
            spec_cpu_temp(components@) == spec_cpu_temp(components@.skip(i as int)),
        decreases n - i,
    {
        proof {
            assert(components@.skip(i as int).first() == components@[i as int]);
            assert(components@.skip(i as int).drop_first() =~= components@.skip(i as int + 1));
        }
        let target = ("cpu_thermal temp1").to_owned();
        if components[i].label == target {
            return components[i].temperature_centi;
        }
        i = i + 1;
    }
    proof {
        assert(components@.skip(n as int) =~= Seq::<ComponentReading>::empty());
    }
    0
}

/// First address of the first interface with this name that has one.
fn find_ip(networks: &Vec<NetworkReading>, name: &str) -> (r: Option<IpV4>)
    ensures
        r == spec_find_ip(networks@, name@),
{
    let n = networks.len();
    let mut i: usize = 0;
    proof {
        assert(networks@.skip(0) =~= networks@);
    }
    while i < n
        invariant
            i <= n,
            n == networks@.len(),
            spec_find_ip(networks@, name@) == spec_find_ip(networks@.skip(i as int), name@),
        decreases n - i,
    {
        proof {
            assert(networks@.skip(i as int).first() == networks@[i as int]);
            assert(networks@.skip(i as int).drop_first() =~= networks@.skip(i as int + 1));
        }
        let target = name.to_owned();
        if networks[i].name == target && networks[i].addrs.len() > 0 {
            return Some(networks[i].addrs[0]);
        }
        i = i + 1;
    }
    proof {
        assert(networks@.skip(n as int) =~= Seq::<NetworkReading>::empty());
    }
    None
}

/// Primary address under the wired-before-wireless priority.
fn primary_ip_of(networks: &Vec<NetworkReading>) -> (r: IpV4)
    ensures
        r == spec_primary_ip(networks@),
{
    match find_ip(networks, "eth0") {
        Some(ip) => ip,
        None => match find_ip(networks, "wlan0") {
            Some(ip) => ip,
            None => IpV4::unspecified(),
        },
    }
}

/// Utilization of the first filesystem mounted at the root path.
fn root_disk_of(disks: &Vec<DiskReading>) -> (r: Option<Ratio>)
    ensures
        r == spec_root_disk(disks@),
        r matches Some(q) ==> q.wf(),
{
    let n = disks.len();
    let mut i: usize = 0;
    proof {
        assert(disks@.skip(0) =~= disks@);
    }
    while i < n
        invariant
            i <= n,
            n == disks@.len(),
            spec_root_disk(disks@) == spec_root_disk(disks@.skip(i as int)),
        decreases n - i,
    {
        proof {
            assert(disks@.skip(i as int).first() == disks@[i as int]);
            assert(disks@.skip(i as int).drop_first() =~= disks@.skip(i as int + 1));
        }
        let target = ("/").to_owned();
        if disks[i].mount_point == target {
            let total = disks[i].total_bytes;
            let available = disks[i].available_bytes;
            let used: u64 = if available <= total {
                total - available
            } else {
                0
            };
            return Some(Ratio::new(used, total));
        }
        i = i + 1;
    }
    proof {
        assert(disks@.skip(n as int) =~= Seq::<DiskReading>::empty());
    }
    None
}

/// The sampler's cached snapshot: every value the renderer reads, derived
/// from the most recent reading.  Missing data is a sentinel, never an
/// error.
#[derive(Clone, Debug)]
pub struct SysInfo {
    pub cpu: Ratio,
    pub memory: Ratio,
    pub disk: Option<Ratio>,
    pub temperature_centi: i64,
    pub uptime_seconds: u64,
    pub hostname: String,
    pub ip: IpV4,
}

impl SysInfo {
    pub open spec fn wf(self) -> bool {
        &&& self.cpu.wf()
        &&& self.memory.wf()
        &&& (self.disk matches Some(r) ==> r.wf())
    }

    /// An empty snapshot: everything at its sentinel.
    pub fn new() -> (s: SysInfo)
        ensures
            s.cpu == (Ratio { num: 0, den: 1 }),
            s.memory == (Ratio { num: 0, den: 1 }),
            s.disk is None,
            s.temperature_centi == 0,
            s.uptime_seconds == 0,
            s.hostname@ == Seq::<char>::empty(),
            s.ip == (IpV4 { a: 0, b: 0, c: 0, d: 0 }),
            s.wf(),
    {
        SysInfo {
            cpu: Ratio::zero(),
            memory: Ratio::zero(),
            disk: None,
            temperature_centi: 0,
            uptime_seconds: 0,
            hostname: String::new(),
            ip: IpV4::unspecified(),
        }
    }

    /// Replaces the cached snapshot with the values derived from `reading`.
    pub fn refresh(&mut self, reading: SystemReading)
        ensures
            final(self).cpu == spec_cpu_ratio(reading.cpu_core_load_bp@),
            final(self).memory == Ratio::spec_new(reading.used_memory, reading.total_memory),
            final(self).disk == spec_root_disk(reading.disks@),
            final(self).temperature_centi as int == spec_cpu_temp(reading.components@),
            final(self).uptime_seconds == reading.uptime_seconds,
            final(self).hostname@ == spec_hostname(reading.hostname),
            final(self).ip == spec_primary_ip(reading.networks@),
            final(self).wf(),
    {
        self.cpu = cpu_ratio_of(&reading.cpu_core_load_bp);
        self.memory = Ratio::new(reading.used_memory, reading.total_memory);
        self.disk = root_disk_of(&reading.disks);
        self.temperature_centi = cpu_temp_of(&reading.components);
        self.uptime_seconds = reading.uptime_seconds;
        self.hostname = match reading.hostname {
            Some(h) => h,
            None => String::new(),
        };
        self.ip = primary_ip_of(&reading.networks);
    }

    /// Aggregate CPU utilization.
    pub fn cpu_usage(&self) -> (r: Ratio)
        ensures
            r == self.cpu,
    {
        self.cpu
    }

    /// Memory utilization.
    pub fn memory_usage(&self) -> (r: Ratio)
        ensures
            r == self.memory,
    {
        self.memory
    }

    /// CPU temperature in hundredths of a degree Celsius.
    pub fn cpu_temp(&self) -> (r: i64)
        ensures
            r == self.temperature_centi,
    {
        self.temperature_centi
    }

    /// Root filesystem utilization, absent when the root mount was not seen.
    pub fn root_disk_usage(&self) -> (r: Option<Ratio>)
        ensures
            r == self.disk,
    {
        self.disk
    }

    /// The cached host name.
    pub fn hostname(&self) -> (r: &String)
        ensures
            r@ == self.hostname@,
    {
        &self.hostname
    }

    /// The cached primary IPv4 address.
    pub fn ip_addr(&self) -> (r: IpV4)
        ensures
            r == self.ip,
    {
        self.ip
    }

    /// The cached uptime, rendered as the footer shows it.
    pub fn uptime(&self) -> (r: String)
        ensures
            r@ == spec_uptime_text(self.uptime_seconds as nat),
    {
        format_uptime(self.uptime_seconds)
    }
}

} // verus!
