//! Output discovery: selecting a connector, a display mode and a CRTC from
//! a snapshot of what the kernel display device reports.
//!
//! The device is read over ioctls outside the library; what those calls
//! return — connectors, their modes and encoders, the CRTC handles, which
//! CRTCs a probing call accepts — is handed in as plain values, and every
//! choice made on them is verified here.

use vstd::prelude::*;

verus! {

/// One display mode a connector advertises.
#[derive(Clone, Copy, PartialEq, Eq, Structural, Debug)]
pub struct DisplayMode {
    pub width: u32,
    pub height: u32,
    pub refresh: u32,
    pub preferred: bool,
}

impl DisplayMode {
    /// The pixel area of the mode.
    pub open spec fn spec_area(self) -> int {
        self.width * self.height
    }
}

/// The selection key order on modes: a preferred mode beats any
/// non-preferred one, and among equally flagged modes the larger pixel
/// area wins.
pub open spec fn mode_le(a: DisplayMode, b: DisplayMode) -> bool {
    ||| !a.preferred && b.preferred
    ||| a.preferred == b.preferred && a.spec_area() <= b.spec_area()
}

/// Strictly better under the selection key.
pub open spec fn mode_lt(a: DisplayMode, b: DisplayMode) -> bool {
    mode_le(a, b) && !(a.preferred == b.preferred && a.spec_area() == b.spec_area())
}

/// A pixel area of 32-bit sides fits into 64 bits.
proof fn lemma_area_fits(m: DisplayMode)
    ensures
        0 <= m.spec_area() <= u64::MAX,
{
    assert(m.width * m.height <= u32::MAX * u32::MAX) by (nonlinear_arith)
        requires
            m.width <= u32::MAX,
            m.height <= u32::MAX,
    ;
}

/// Compares two modes under the selection key.
pub fn mode_key_le(a: &DisplayMode, b: &DisplayMode) -> (r: bool)
    ensures
        r == mode_le(*a, *b),
{
    proof {
        lemma_area_fits(*a);
        lemma_area_fits(*b);
    }
    if !a.preferred && b.preferred {
        true
    } else if a.preferred == b.preferred {
        let area_a = (a.width as u64) * (a.height as u64);
        let area_b = (b.width as u64) * (b.height as u64);
        area_a <= area_b
    } else {
        false
    }
}

/// The index of the best mode among the current best `best` and the modes
/// from index `i` on, scanning forward and replacing the best on ties so
/// that the last maximal mode wins.
pub open spec fn spec_best_mode_from(modes: Seq<DisplayMode>, best: int, i: int) -> int
    decreases modes.len() - i,
{
    if i < 0 || i >= modes.len() {
        best
    } else if mode_le(modes[best], modes[i]) {
        spec_best_mode_from(modes, i, i + 1)
    } else {
        spec_best_mode_from(modes, best, i + 1)
    }
}

/// The index of the mode discovery settles on (meaningful only for a
/// nonempty mode list).
pub open spec fn spec_best_mode_idx(modes: Seq<DisplayMode>) -> int {
    spec_best_mode_from(modes, 0, 1)
}

/// Picks the mode maximizing the (preferred flag, pixel area) key; among
/// modes with an equal key the one enumerated last wins.  `None` exactly
/// when no mode is advertised.
pub fn select_mode(modes: &Vec<DisplayMode>) -> (r: Option<usize>)
    ensures
        r is None <==> modes@.len() == 0,
        r matches Some(i) ==> {
            &&& i < modes@.len()
            &&& i as int == spec_best_mode_idx(modes@)
            &&& forall|j: int| 0 <= j < modes@.len() ==> mode_le(#[trigger] modes@[j], modes@[i as int])
            &&& forall|j: int|
                i < j < modes@.len() ==> mode_lt(#[trigger] modes@[j], modes@[i as int])
        },
{
    if modes.len() == 0 {
        return None;
    }
    let mut best: usize = 0;
    let mut i: usize = 1;
    while i < modes.len()
        invariant
            0 < modes@.len(),
            best < i <= modes@.len(),
            spec_best_mode_idx(modes@) == spec_best_mode_from(modes@, best as int, i as int),
            forall|j: int| 0 <= j < i ==> mode_le(#[trigger] modes@[j], modes@[best as int]),
            forall|j: int| best < j < i ==> mode_lt(#[trigger] modes@[j], modes@[best as int]),
        decreases modes@.len() - i,
    {
        if mode_key_le(&modes[best], &modes[i]) {
            best = i;
        }
        i = i + 1;
    }
    Some(best)
}

/// One encoder the device reports: the CRTC currently bound to it, if
/// any, and the bitmask of CRTCs it may legally drive (bit `i` stands for
/// the device's `i`-th CRTC).
#[derive(Clone, Copy, PartialEq, Eq, Structural, Debug)]
pub struct EncoderInfo {
    pub handle: u32,
    pub crtc: Option<u32>,
    pub possible_crtcs: u32,
}

/// One connector the device reports.
pub struct ConnectorInfo {
    pub handle: u32,
    /// The interface kind, e.g. `"HDMI-A"`; with the interface id it forms
    /// the connector's user-visible name.
    pub interface: String,
    pub interface_id: u32,
    pub connected: bool,
    pub modes: Vec<DisplayMode>,
    /// Handles of the encoders reachable from this connector.
    pub encoders: Vec<u32>,
    /// The encoder currently driving the connector, if any.
    pub current_encoder: Option<u32>,
}

/// Everything read from one scanout device that discovery decides on.
pub struct DeviceSnapshot {
    /// Connectors in enumeration order (those the device answered for).
    pub connectors: Vec<ConnectorInfo>,
    /// Encoders the device answered a lookup for.
    pub encoders: Vec<EncoderInfo>,
    /// All CRTC handles, in device order; bit positions of
    /// `possible_crtcs` masks refer to this order.
    pub crtcs: Vec<u32>,
    /// CRTC handles a probing lookup call currently accepts.
    pub usable_crtcs: Vec<u32>,
}

/// Whether bit `i` of `mask` is set; false outside the 32-bit range.
pub open spec fn bit_set(mask: u32, i: int) -> bool {
    0 <= i < 32 && (mask >> (i as u32)) & 1u32 == 1u32
}

/// The CRTC handles (in device order) whose position among the first `n`
/// is set in `mask`.
pub open spec fn spec_filter_crtcs_upto(crtcs: Seq<u32>, mask: u32, n: int) -> Seq<u32>
    decreases n,
{
    if n <= 0 || n > crtcs.len() {
        Seq::empty()
    } else {
        spec_filter_crtcs_upto(crtcs, mask, n - 1) + if bit_set(mask, n - 1) {
            seq![crtcs[n - 1]]
        } else {
            Seq::empty()
        }
    }
}

/// The CRTC handles an encoder with `mask` may drive, in device order.
pub open spec fn spec_filter_crtcs(crtcs: Seq<u32>, mask: u32) -> Seq<u32> {
    spec_filter_crtcs_upto(crtcs, mask, crtcs.len() as int)
}

/// Keeps the CRTC handles whose position in the device's CRTC list is set
/// in `mask`, in order: the legal targets of an encoder.
pub fn filter_crtcs(crtcs: &Vec<u32>, mask: u32) -> (r: Vec<u32>)
    ensures
        r@ == spec_filter_crtcs(crtcs@, mask),
{
    let mut r: Vec<u32> = Vec::new();
    let mut i: usize = 0;
    while i < crtcs.len()
        invariant
            i <= crtcs@.len(),
            r@ == spec_filter_crtcs_upto(crtcs@, mask, i as int),
        decreases crtcs@.len() - i,
    {
        if i < 32 && (mask >> (i as u32)) & 1 == 1 {
            r.push(crtcs[i]);
        }
        i = i + 1;
    }
    r
}

/// Whether `x` occurs in `v`.
pub fn contains_u32(v: &Vec<u32>, x: u32) -> (r: bool)
    ensures
        r == v@.contains(x),
{
    let mut i: usize = 0;
    while i < v.len()
        invariant
            i <= v@.len(),
            forall|j: int| 0 <= j < i ==> v@[j] != x,
        decreases v@.len() - i,
    {
        if v[i] == x {
            return true;
        }
        i = i + 1;
    }
    false
}

/// The first encoder with handle `h`, searching from index `i`.
pub open spec fn spec_find_encoder_from(s: Seq<EncoderInfo>, h: u32, i: int) -> Option<EncoderInfo>
    decreases s.len() - i,
{
    if i < 0 || i >= s.len() {
        None
    } else if s[i].handle == h {
        Some(s[i])
    } else {
        spec_find_encoder_from(s, h, i + 1)
    }
}

/// The encoder the device reported for handle `h`, if it answered.
pub open spec fn spec_find_encoder(s: Seq<EncoderInfo>, h: u32) -> Option<EncoderInfo> {
    spec_find_encoder_from(s, h, 0)
}

/// Looks the encoder with handle `h` up in the device's answers.
pub fn find_encoder(encoders: &Vec<EncoderInfo>, h: u32) -> (r: Option<EncoderInfo>)
    ensures
        r == spec_find_encoder(encoders@, h),
{
    let mut i: usize = 0;
    while i < encoders.len()
        invariant
            i <= encoders@.len(),
            spec_find_encoder(encoders@, h) == spec_find_encoder_from(encoders@, h, i as int),
        decreases encoders@.len() - i,
    {
        if encoders[i].handle == h {
            return Some(encoders[i]);
        }
        i = i + 1;
    }
    None
}

/// The first of the CRTCs in `s` (from index `i` on) that the device's
/// probing call currently accepts.
pub open spec fn spec_first_usable_from(s: Seq<u32>, usable: Seq<u32>, i: int) -> Option<u32>
    decreases s.len() - i,
{
    if i < 0 || i >= s.len() {
        None
    } else if usable.contains(s[i]) {
        Some(s[i])
    } else {
        spec_first_usable_from(s, usable, i + 1)
    }
}

/// Picks the first CRTC of `candidates` that the device currently
/// considers usable.
pub fn first_usable_crtc(candidates: &Vec<u32>, usable: &Vec<u32>) -> (r: Option<u32>)
    ensures
        r == spec_first_usable_from(candidates@, usable@, 0),
{
    let mut i: usize = 0;
    while i < candidates.len()
        invariant
            i <= candidates@.len(),
            spec_first_usable_from(candidates@, usable@, 0) == spec_first_usable_from(
                candidates@,
                usable@,
                i as int,
            ),
        decreases candidates@.len() - i,
    {
        if contains_u32(usable, candidates[i]) {
            return Some(candidates[i]);
        }
        i = i + 1;
    }
    None
}

/// The CRTC already bound to the connector's current encoder, provided
/// that encoder is still reachable from the connector and the CRTC is
/// still among the encoder's legal targets and currently usable.
pub open spec fn spec_preferred_crtc(conn: ConnectorInfo, dev: DeviceSnapshot) -> Option<u32> {
    match conn.current_encoder {
        Some(ce) => if conn.encoders@.contains(ce) {
            match spec_find_encoder(dev.encoders@, ce) {
                Some(enc) => match enc.crtc {
                    Some(c) => if spec_filter_crtcs(dev.crtcs@, enc.possible_crtcs).contains(c)
                        && dev.usable_crtcs@.contains(c) {
                        Some(c)
                    } else {
                        None
                    },
                    None => None,
                },
                None => None,
            }
        } else {
            None
        },
        None => None,
    }
}

/// The fallback search from encoder index `k` on: for each encoder
/// reachable from the connector, intersect its legal targets with the
/// device's CRTCs and take the first currently usable one.
pub open spec fn spec_fallback_crtc_from(conn: ConnectorInfo, dev: DeviceSnapshot, k: int) -> Option<
    u32,
>
    decreases conn.encoders@.len() - k,
{
    if k < 0 || k >= conn.encoders@.len() {
        None
    } else {
        let rest = spec_fallback_crtc_from(conn, dev, k + 1);
        match spec_find_encoder(dev.encoders@, conn.encoders@[k]) {
            Some(enc) => match spec_first_usable_from(
                spec_filter_crtcs(dev.crtcs@, enc.possible_crtcs),
                dev.usable_crtcs@,
                0,
            ) {
                Some(c) => Some(c),
                None => rest,
            },
            None => rest,
        }
    }
}

/// The CRTC discovery settles on for `conn`: the validated currently
/// bound one if possible, otherwise the first hit of the fallback search.
pub open spec fn spec_select_crtc(conn: ConnectorInfo, dev: DeviceSnapshot) -> Option<u32> {
    match spec_preferred_crtc(conn, dev) {
        Some(c) => Some(c),
        None => spec_fallback_crtc_from(conn, dev, 0),
    }
}

/// Selects the CRTC to drive `conn`.
///
/// Prefers the CRTC already bound to the connector's current encoder when
/// that binding is still valid; otherwise searches every encoder reachable
/// from the connector for the first legal, currently usable CRTC.  `None`
/// exactly when no such pairing exists.
pub fn select_crtc(conn: &ConnectorInfo, dev: &DeviceSnapshot) -> (r: Option<u32>)
    ensures
        r == spec_select_crtc(*conn, *dev),
{
    // the currently bound encoder, if still reachable from the connector
    let current = match conn.current_encoder {
        Some(ce) => if contains_u32(&conn.encoders, ce) {
            find_encoder(&dev.encoders, ce)
        } else {
            None
        },
        None => None,
    };
    if let Some(enc) = current {
        if let Some(c) = enc.crtc {
            let legal = filter_crtcs(&dev.crtcs, enc.possible_crtcs);
            if contains_u32(&legal, c) && contains_u32(&dev.usable_crtcs, c) {
                return Some(c);
            }
        }
    }
    let mut k: usize = 0;
    while k < conn.encoders.len()
        invariant
            k <= conn.encoders@.len(),
            spec_preferred_crtc(*conn, *dev) is None,
            spec_fallback_crtc_from(*conn, *dev, 0) == spec_fallback_crtc_from(
                *conn,
                *dev,
                k as int,
            ),
        decreases conn.encoders@.len() - k,
    {
        if let Some(enc) = find_encoder(&dev.encoders, conn.encoders[k]) {
            let legal = filter_crtcs(&dev.crtcs, enc.possible_crtcs);
            if let Some(c) = first_usable_crtc(&legal, &dev.usable_crtcs) {
                return Some(c);
            }
        }
        k = k + 1;
    }
    None
}

/// The decimal digit character for `d`.
pub open spec fn digit_char(d: int) -> char {
    if d == 1 {
        '1'
    } else if d == 2 {
        '2'
    } else if d == 3 {
        '3'
    } else if d == 4 {
        '4'
    } else if d == 5 {
        '5'
    } else if d == 6 {
        '6'
    } else if d == 7 {
        '7'
    } else if d == 8 {
        '8'
    } else if d == 9 {
        '9'
    } else {
        '0'
    }
}

/// The decimal digit sequence of `n`, most significant first, without
/// leading zeros (just `"0"` for zero).
pub open spec fn dec_digits(n: int) -> Seq<char>
    decreases n,
{
    if n < 10 {
        seq![digit_char(n)]
    } else {
        dec_digits(n / 10).push(digit_char(n % 10))
    }
}

/// The one-character string for the decimal digit `d`.
fn digit_str(d: u32) -> (r: &'static str)
    requires
        d < 10,
    ensures
        r@ == seq![digit_char(d as int)],
{
    proof {
        reveal_strlit("0");
        reveal_strlit("1");
        reveal_strlit("2");
        reveal_strlit("3");
        reveal_strlit("4");
        reveal_strlit("5");
        reveal_strlit("6");
        reveal_strlit("7");
        reveal_strlit("8");
        reveal_strlit("9");
    }
    let r: &'static str = if d == 0 {
        "0"
    } else if d == 1 {
        "1"
    } else if d == 2 {
        "2"
    } else if d == 3 {
        "3"
    } else if d == 4 {
        "4"
    } else if d == 5 {
        "5"
    } else if d == 6 {
        "6"
    } else if d == 7 {
        "7"
    } else if d == 8 {
        "8"
    } else {
        "9"
    };
    proof {
        assert(r@ =~= seq![digit_char(d as int)]);
    }
    r
}

/// Appends the decimal digits of `n` to `s`.
pub fn push_decimal(s: &mut String, n: u32)
    ensures
        final(s)@ == old(s)@ + dec_digits(n as int),
    decreases n,
{
    if n >= 10 {
        push_decimal(s, n / 10);
    }
    s.append(digit_str(n % 10));
    proof {
        if n < 10 {
            assert(final(s)@ =~= old(s)@ + dec_digits(n as int));
        } else {
            assert(final(s)@ =~= old(s)@ + dec_digits(n as int));
        }
    }
}

/// The user-visible name of a connector: `"<interface>-<interface-id>"`,
/// e.g. `"HDMI-A-1"`.
pub open spec fn spec_connector_name(c: ConnectorInfo) -> Seq<char> {
    c.interface@ + seq!['-'] + dec_digits(c.interface_id as int)
}

/// Builds the connector's user-visible name.
pub fn connector_name(conn: &ConnectorInfo) -> (r: String)
    ensures
        r@ == spec_connector_name(*conn),
{
    let mut s = conn.interface.clone();
    proof {
        reveal_strlit("-");
    }
    s.append("-");
    push_decimal(&mut s, conn.interface_id);
    proof {
        assert(s@ =~= spec_connector_name(*conn));
    }
    s
}

/// One line of the diagnostic output listing.
#[derive(Debug)]
pub struct OutputListing {
    pub name: String,
    pub connected: bool,
}

/// Enumerates every connector's name with its connected status, one entry
/// per connector, in enumeration order.
pub fn list_outputs(connectors: &Vec<ConnectorInfo>) -> (r: Vec<OutputListing>)
    ensures
        r@.len() == connectors@.len(),
        forall|i: int|
            0 <= i < connectors@.len() ==> (#[trigger] r@[i]).name@ == spec_connector_name(
                connectors@[i],
            ) && r@[i].connected == connectors@[i].connected,
{
    let mut r: Vec<OutputListing> = Vec::new();
    let mut i: usize = 0;
    while i < connectors.len()
        invariant
            i <= connectors@.len(),
            r@.len() == i,
            forall|j: int|
                0 <= j < i ==> (#[trigger] r@[j]).name@ == spec_connector_name(connectors@[j])
                    && r@[j].connected == connectors@[j].connected,
        decreases connectors@.len() - i,
    {
        let name = connector_name(&connectors[i]);
        r.push(OutputListing { name, connected: connectors[i].connected });
        i = i + 1;
    }
    r
}

/// How the caller asks for an output: take the first connected connector,
/// take the one with a given name, or list them all and stop.
pub enum OutputSelector {
    FirstConnected,
    Named { name: String },
    List,
}

/// Whether `s` spells `"list"`, ASCII case notwithstanding.
pub open spec fn is_list_word(s: Seq<char>) -> bool {
    &&& s.len() == 4
    &&& (s[0] == 'l' || s[0] == 'L')
    &&& (s[1] == 'i' || s[1] == 'I')
    &&& (s[2] == 's' || s[2] == 'S')
    &&& (s[3] == 't' || s[3] == 'T')
}

/// Reads the output-selector string: empty means "first connected
/// connector", `"list"` (in any ASCII case) requests the diagnostic
/// listing, anything else names a connector.
pub fn parse_selector(s: &str) -> (r: OutputSelector)
    ensures
        s@.len() == 0 ==> r is FirstConnected,
        is_list_word(s@) ==> r is List,
        s@.len() != 0 && !is_list_word(s@) ==> (r matches OutputSelector::Named { name }
            && name@ == s@),
{
    let n = s.unicode_len();
    if n == 0 {
        return OutputSelector::FirstConnected;
    }
    if n == 4 {
        let c0 = s.get_char(0);
        let c1 = s.get_char(1);
        let c2 = s.get_char(2);
        let c3 = s.get_char(3);
        if (c0 == 'l' || c0 == 'L') && (c1 == 'i' || c1 == 'I') && (c2 == 's' || c2 == 'S') && (c3
            == 't' || c3 == 'T') {
            return OutputSelector::List;
        }
    }
    OutputSelector::Named { name: String::from_str(s) }
}

/// Why discovery failed, with the data naming the missing resource.
#[derive(Debug)]
pub enum DiscoveryError {
    /// No scanout device could be enumerated at all.
    NoDevice,
    /// The caller asked for the diagnostic listing; the caller prints it
    /// and stops, nothing is resolved.
    ListRequested { listing: Vec<OutputListing> },
    /// No connector carries the requested name.
    NoOutputWithName { name: String },
    /// The requested connector exists but nothing is plugged into it.
    OutputNotConnected { name: String },
    /// No connector is connected.
    NoConnectedConnector,
    /// The chosen connector advertises no mode.
    NoMode,
    /// The chosen mode has a zero width.
    InvalidWidth { width: u32 },
    /// The chosen mode has a zero height.
    InvalidHeight { height: u32 },
    /// No encoder reachable from the chosen connector can drive a usable
    /// CRTC.
    NoCrtc { connector_name: String },
}

/// The bare classification of a [`DiscoveryError`].
#[derive(Clone, Copy, PartialEq, Eq, Structural, Debug)]
pub enum DiscoveryErrorKind {
    NoDevice,
    ListRequested,
    NoOutputWithName,
    OutputNotConnected,
    NoConnectedConnector,
    NoMode,
    InvalidWidth,
    InvalidHeight,
    NoCrtc,
}

impl DiscoveryError {
    /// The classification of this error.
    pub open spec fn spec_kind(self) -> DiscoveryErrorKind {
        match self {
            DiscoveryError::NoDevice => DiscoveryErrorKind::NoDevice,
            DiscoveryError::ListRequested { .. } => DiscoveryErrorKind::ListRequested,
            DiscoveryError::NoOutputWithName { .. } => DiscoveryErrorKind::NoOutputWithName,
            DiscoveryError::OutputNotConnected { .. } => DiscoveryErrorKind::OutputNotConnected,
            DiscoveryError::NoConnectedConnector => DiscoveryErrorKind::NoConnectedConnector,
            DiscoveryError::NoMode => DiscoveryErrorKind::NoMode,
            DiscoveryError::InvalidWidth { .. } => DiscoveryErrorKind::InvalidWidth,
            DiscoveryError::InvalidHeight { .. } => DiscoveryErrorKind::InvalidHeight,
            DiscoveryError::NoCrtc { .. } => DiscoveryErrorKind::NoCrtc,
        }
    }

    /// Classifies the error.
    pub fn kind(&self) -> (r: DiscoveryErrorKind)
        ensures
            r == self.spec_kind(),
    {
        match self {
            DiscoveryError::NoDevice => DiscoveryErrorKind::NoDevice,
            DiscoveryError::ListRequested { .. } => DiscoveryErrorKind::ListRequested,
            DiscoveryError::NoOutputWithName { .. } => DiscoveryErrorKind::NoOutputWithName,
            DiscoveryError::OutputNotConnected { .. } => DiscoveryErrorKind::OutputNotConnected,
            DiscoveryError::NoConnectedConnector => DiscoveryErrorKind::NoConnectedConnector,
            DiscoveryError::NoMode => DiscoveryErrorKind::NoMode,
            DiscoveryError::InvalidWidth { .. } => DiscoveryErrorKind::InvalidWidth,
            DiscoveryError::InvalidHeight { .. } => DiscoveryErrorKind::InvalidHeight,
            DiscoveryError::NoCrtc { .. } => DiscoveryErrorKind::NoCrtc,
        }
    }
}

/// The first connected connector from index `i` on.
pub open spec fn spec_first_connected_from(cs: Seq<ConnectorInfo>, i: int) -> Option<int>
    decreases cs.len() - i,
{
    if i < 0 || i >= cs.len() {
        None
    } else if cs[i].connected {
        Some(i)
    } else {
        spec_first_connected_from(cs, i + 1)
    }
}

/// The first connector whose name is `name`, from index `i` on.
pub open spec fn spec_find_named_from(cs: Seq<ConnectorInfo>, name: Seq<char>, i: int) -> Option<
    int,
>
    decreases cs.len() - i,
{
    if i < 0 || i >= cs.len() {
        None
    } else if spec_connector_name(cs[i]) == name {
        Some(i)
    } else {
        spec_find_named_from(cs, name, i + 1)
    }
}

/// Picks the first connected connector.
pub fn first_connected(connectors: &Vec<ConnectorInfo>) -> (r: Option<usize>)
    ensures
        r is Some <==> spec_first_connected_from(connectors@, 0) is Some,
        r matches Some(i) ==> i < connectors@.len() && spec_first_connected_from(connectors@, 0)
            == Some(i as int),
{
    let mut i: usize = 0;
    while i < connectors.len()
        invariant
            i <= connectors@.len(),
            spec_first_connected_from(connectors@, 0) == spec_first_connected_from(
                connectors@,
                i as int,
            ),
        decreases connectors@.len() - i,
    {
        if connectors[i].connected {
            return Some(i);
        }
        i = i + 1;
    }
    None
}

/// Finds the connector carrying the name `name`.
pub fn find_named(connectors: &Vec<ConnectorInfo>, name: &String) -> (r: Option<usize>)
    ensures
        r is Some <==> spec_find_named_from(connectors@, name@, 0) is Some,
        r matches Some(i) ==> i < connectors@.len() && spec_find_named_from(connectors@, name@, 0)
            == Some(i as int),
{
    let mut i: usize = 0;
    while i < connectors.len()
        invariant
            i <= connectors@.len(),
            spec_find_named_from(connectors@, name@, 0) == spec_find_named_from(
                connectors@,
                name@,
                i as int,
            ),
        decreases connectors@.len() - i,
    {
        let candidate = connector_name(&connectors[i]);
        if candidate == *name {
            return Some(i);
        }
        i = i + 1;
    }
    None
}

/// The connector the selector settles on: the first connected one, or the
/// connected one carrying the requested name.  `None` when the selection
/// fails (and always for the diagnostic listing).
pub open spec fn spec_connector_choice(cs: Seq<ConnectorInfo>, sel: OutputSelector) -> Option<int> {
    match sel {
        OutputSelector::FirstConnected => spec_first_connected_from(cs, 0),
        OutputSelector::Named { name } => match spec_find_named_from(cs, name@, 0) {
            Some(i) => if cs[i].connected {
                Some(i)
            } else {
                None
            },
            None => None,
        },
        OutputSelector::List => None,
    }
}

/// Whether discovery succeeds on this device for this selector: a
/// connector is chosen, it advertises a mode, the best mode has nonzero
/// size, and a CRTC pairing exists.
pub open spec fn spec_resolves(dev: DeviceSnapshot, sel: OutputSelector) -> bool {
    match spec_connector_choice(dev.connectors@, sel) {
        Some(ci) => {
            let conn = dev.connectors@[ci];
            &&& conn.modes@.len() > 0
            &&& conn.modes@[spec_best_mode_idx(conn.modes@)].width > 0
            &&& conn.modes@[spec_best_mode_idx(conn.modes@)].height > 0
            &&& spec_select_crtc(conn, dev) is Some
        },
        None => false,
    }
}

/// The configuration discovery returns when it succeeds.
pub open spec fn spec_config(dev: DeviceSnapshot, sel: OutputSelector) -> OutputConfig {
    match spec_connector_choice(dev.connectors@, sel) {
        Some(ci) => {
            let conn = dev.connectors@[ci];
            let mi = spec_best_mode_idx(conn.modes@);
            OutputConfig {
                connector_index: ci as usize,
                connector_handle: conn.handle,
                mode: conn.modes@[mi],
                crtc: match spec_select_crtc(conn, dev) {
                    Some(c) => c,
                    None => 0,
                },
            }
        },
        None => OutputConfig {
            connector_index: 0,
            connector_handle: 0,
            mode: DisplayMode { width: 0, height: 0, refresh: 0, preferred: false },
            crtc: 0,
        },
    }
}

/// Which stage fails once a connector is chosen (meaningful only when
/// discovery fails on this device).
pub open spec fn spec_stage_failure(dev: DeviceSnapshot, ci: int) -> DiscoveryErrorKind {
    let conn = dev.connectors@[ci];
    if conn.modes@.len() == 0 {
        DiscoveryErrorKind::NoMode
    } else if conn.modes@[spec_best_mode_idx(conn.modes@)].width == 0 {
        DiscoveryErrorKind::InvalidWidth
    } else if conn.modes@[spec_best_mode_idx(conn.modes@)].height == 0 {
        DiscoveryErrorKind::InvalidHeight
    } else {
        DiscoveryErrorKind::NoCrtc
    }
}

/// The error class discovery reports on this device (meaningful only when
/// discovery fails on it).
pub open spec fn spec_failure_kind(dev: DeviceSnapshot, sel: OutputSelector) -> DiscoveryErrorKind {
    match sel {
        OutputSelector::List => DiscoveryErrorKind::ListRequested,
        OutputSelector::FirstConnected => match spec_first_connected_from(dev.connectors@, 0) {
            None => DiscoveryErrorKind::NoConnectedConnector,
            Some(ci) => spec_stage_failure(dev, ci),
        },
        OutputSelector::Named { name } => match spec_find_named_from(dev.connectors@, name@, 0) {
            None => DiscoveryErrorKind::NoOutputWithName,
            Some(ci) => if !dev.connectors@[ci].connected {
                DiscoveryErrorKind::OutputNotConnected
            } else {
                spec_stage_failure(dev, ci)
            },
        },
    }
}

/// The resolved scanout configuration of one device: which connector, its
/// chosen mode, and the CRTC to drive it with.
#[derive(Clone, Copy, PartialEq, Eq, Structural, Debug)]
pub struct OutputConfig {
    pub connector_index: usize,
    pub connector_handle: u32,
    pub mode: DisplayMode,
    pub crtc: u32,
}

/// Applies the selector to the device's connectors.
///
/// For the diagnostic selector the result is always the listing error,
/// which the caller prints before stopping; otherwise the chosen connector
/// index, or the error naming what was missing.
pub fn select_connector(connectors: &Vec<ConnectorInfo>, selector: &OutputSelector) -> (r: Result<
    usize,
    DiscoveryError,
>)
    ensures
        r is Ok <==> spec_connector_choice(connectors@, *selector) is Some,
        r matches Ok(i) ==> i < connectors@.len() && spec_connector_choice(connectors@, *selector)
            == Some(i as int),
        r matches Err(e) ==> e.spec_kind() == match *selector {
            OutputSelector::List => DiscoveryErrorKind::ListRequested,
            OutputSelector::FirstConnected => DiscoveryErrorKind::NoConnectedConnector,
            OutputSelector::Named { name } => if spec_find_named_from(connectors@, name@, 0)
                is None {
                DiscoveryErrorKind::NoOutputWithName
            } else {
                DiscoveryErrorKind::OutputNotConnected
            },
        },
        r matches Err(DiscoveryError::ListRequested { listing }) ==> {
            &&& listing@.len() == connectors@.len()
            &&& forall|i: int|
                0 <= i < connectors@.len() ==> (#[trigger] listing@[i]).name@
                    == spec_connector_name(connectors@[i]) && listing@[i].connected
                    == connectors@[i].connected
        },
        r matches Err(DiscoveryError::NoOutputWithName { name }) ==> ((*selector) matches
        OutputSelector::Named { name: n } && name@ == n@),
        r matches Err(DiscoveryError::OutputNotConnected { name }) ==> ((*selector) matches
        OutputSelector::Named { name: n } && name@ == n@),
{
    match selector {
        OutputSelector::List => Err(
            DiscoveryError::ListRequested { listing: list_outputs(connectors) },
        ),
        OutputSelector::FirstConnected => match first_connected(connectors) {
            Some(i) => Ok(i),
            None => Err(DiscoveryError::NoConnectedConnector),
        },
        OutputSelector::Named { name } => match find_named(connectors, name) {
            None => Err(DiscoveryError::NoOutputWithName { name: name.clone() }),
            Some(i) => if connectors[i].connected {
                Ok(i)
            } else {
                Err(DiscoveryError::OutputNotConnected { name: name.clone() })
            },
        },
    }
}

/// Resolves one device: selector to connector, connector to mode, mode to
/// size check, connector to CRTC.  Errors name the missing resource and
/// let the caller move on to the next candidate device.
pub fn try_resolve_output(dev: &DeviceSnapshot, selector: &OutputSelector) -> (r: Result<
    OutputConfig,
    DiscoveryError,
>)
    ensures
        r is Ok <==> spec_resolves(*dev, *selector),
        r matches Ok(cfg) ==> cfg == spec_config(*dev, *selector),
        r matches Err(e) ==> e.spec_kind() == spec_failure_kind(*dev, *selector),
        r matches Err(DiscoveryError::ListRequested { listing }) ==> {
            &&& listing@.len() == dev.connectors@.len()
            &&& forall|i: int|
                0 <= i < dev.connectors@.len() ==> (#[trigger] listing@[i]).name@
                    == spec_connector_name(dev.connectors@[i]) && listing@[i].connected
                    == dev.connectors@[i].connected
        },
        r matches Err(DiscoveryError::NoOutputWithName { name }) ==> ((*selector) matches
        OutputSelector::Named { name: n } && name@ == n@),
        r matches Err(DiscoveryError::OutputNotConnected { name }) ==> ((*selector) matches
        OutputSelector::Named { name: n } && name@ == n@),
        r matches Err(DiscoveryError::NoCrtc { connector_name }) ==> (spec_connector_choice(
            dev.connectors@,
            *selector,
        ) matches Some(ci) && connector_name@ == spec_connector_name(dev.connectors@[ci])),
        r matches Err(DiscoveryError::InvalidWidth { width }) ==> width == 0,
        r matches Err(DiscoveryError::InvalidHeight { height }) ==> height == 0,
{
    let ci = match select_connector(&dev.connectors, selector) {
        Ok(ci) => ci,
        Err(e) => {
            return Err(e);
        },
    };
    let conn = &dev.connectors[ci];
    let mi = match select_mode(&conn.modes) {
        Some(mi) => mi,
        None => {
            return Err(DiscoveryError::NoMode);
        },
    };
    let mode = conn.modes[mi];
    if mode.width == 0 {
        return Err(DiscoveryError::InvalidWidth { width: mode.width });
    }
    if mode.height == 0 {
        return Err(DiscoveryError::InvalidHeight { height: mode.height });
    }
    match select_crtc(conn, dev) {
        Some(crtc) => Ok(
            OutputConfig { connector_index: ci, connector_handle: conn.handle, mode, crtc },
        ),
        None => Err(DiscoveryError::NoCrtc { connector_name: connector_name(conn) }),
    }
}

/// A successful discovery: which candidate device, and its configuration.
#[derive(Clone, Copy, PartialEq, Eq, Structural, Debug)]
pub struct ResolvedOutput {
    pub device_index: usize,
    pub config: OutputConfig,
}

/// Resolves the first candidate device the selector succeeds on; when all
/// fail, the last error is surfaced (the diagnostic listing comes from the
/// first device, where enumeration stops).
pub fn resolve_output(devices: &Vec<DeviceSnapshot>, selector: &OutputSelector) -> (r: Result<
    ResolvedOutput,
    DiscoveryError,
>)
    ensures
        r matches Ok(res) ==> {
            &&& res.device_index < devices@.len()
            &&& spec_resolves(devices@[res.device_index as int], *selector)
            &&& res.config == spec_config(devices@[res.device_index as int], *selector)
            &&& forall|d: int|
                0 <= d < res.device_index ==> !spec_resolves(#[trigger] devices@[d], *selector)
        },
        r is Err ==> forall|d: int|
            0 <= d < devices@.len() ==> !spec_resolves(#[trigger] devices@[d], *selector),
        devices@.len() == 0 ==> (r matches Err(e) && e is NoDevice),
        devices@.len() > 0 && (*selector) is List ==> (r matches Err(e) && e matches
        DiscoveryError::ListRequested { listing } && listing@.len() == devices@[0].connectors@.len()
            && (forall|i: int|
            0 <= i < devices@[0].connectors@.len() ==> (#[trigger] listing@[i]).name@
                == spec_connector_name(devices@[0].connectors@[i]) && listing@[i].connected
                == devices@[0].connectors@[i].connected)),
        devices@.len() > 0 && !((*selector) is List) ==> (r matches Err(e) ==> e.spec_kind()
            == spec_failure_kind(devices@[devices@.len() - 1], *selector)),
{
    if devices.len() == 0 {
        return Err(DiscoveryError::NoDevice);
    }
    if let OutputSelector::List = selector {
        // enumeration stops at the first device for the diagnostic listing
        match try_resolve_output(&devices[0], selector) {
            Err(e) => {
                return Err(e);
            },
            Ok(_) => {
                proof {
                    assert(false);
                }
            },
        }
    }
    let mut d: usize = 0;
    let mut last: Option<DiscoveryError> = None;
    while d < devices.len()
        invariant
            d <= devices@.len(),
            !((*selector) is List),
            forall|e: int| 0 <= e < d ==> !spec_resolves(#[trigger] devices@[e], *selector),
            d > 0 ==> (last matches Some(e) && e.spec_kind() == spec_failure_kind(
                devices@[d - 1],
                *selector,
            )),
        decreases devices@.len() - d,
    {
        match try_resolve_output(&devices[d], selector) {
            Ok(config) => {
                return Ok(ResolvedOutput { device_index: d, config });
            },
            Err(e) => {
                last = Some(e);
            },
        }
        d = d + 1;
    }
    match last {
        Some(e) => Err(e),
        None => {
            proof {
                assert(false);
            }
            Err(DiscoveryError::NoDevice)
        },
    }
}

} // verus!
