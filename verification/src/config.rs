//! The parameters of nfqws: a builder in which every value is optional or
//! has a default, and the built parameter set.

use vstd::prelude::*;
use std::time::Duration;
use crate::bind::opt_text;
use crate::flags::{BindFix, WindowSizeCutoff};
use crate::params::{
    AutoTTL, ConnTrackTimeouts, SynackSplit, WindowSize, duration_from_secs,
    spec_duration_from_secs,
};

verus! {

/// What a [`ParamsBuilder`] holds: each value, if it was given.
pub struct ParamsBuilderView {
    pub bind_fix: Option<BindFix>,
    pub queue: Option<u16>,
    pub connection_tracker_timeouts: Option<ConnTrackTimeouts>,
    pub window_size: Option<WindowSize>,
    pub window_size_cutoff: Option<(WindowSizeCutoff, u32)>,
    pub window_size_forced_cutoff: Option<bool>,
    pub connection_tracker: Option<bool>,
    pub ipcache_lifetime: Option<Duration>,
    pub ipcache_hostname: Option<bool>,
    pub synack_split: Option<SynackSplit>,
    pub modified_tll: Option<u16>,
    pub modified_ttl_ip_v6: Option<u16>,
    pub modified_auto_ttl: Option<AutoTTL>,
    pub modifier_auto_ttl_ip_v6: Option<AutoTTL>,
    pub user: Option<Seq<char>>,
    pub uid: Option<u16>,
    pub gid: Option<u16>,
}

/// What a [`Params`] holds.
pub struct ParamsView {
    pub bind_fix: Option<BindFix>,
    pub queue: Option<u16>,
    pub connection_tracker_timeouts: ConnTrackTimeouts,
    pub window_size: Option<WindowSize>,
    pub window_size_cutoff: Option<(WindowSizeCutoff, u32)>,
    pub window_size_forced_cutoff: bool,
    pub connection_tracker: bool,
    pub ipcache_lifetime: Option<Duration>,
    pub ipcache_hostname: bool,
    pub synack_split: Option<SynackSplit>,
    pub modified_tll: Option<u16>,
    pub modified_ttl_ip_v6: Option<u16>,
    pub modified_auto_ttl: AutoTTL,
    pub modifier_auto_ttl_ip_v6: AutoTTL,
    pub user: Option<Seq<char>>,
    pub uid: Option<u16>,
    pub gid: Option<u16>,
}

/// The empty builder state.
pub open spec fn empty_params_builder() -> ParamsBuilderView {
    ParamsBuilderView {
        bind_fix: None,
        queue: None,
        connection_tracker_timeouts: None,
        window_size: None,
        window_size_cutoff: None,
        window_size_forced_cutoff: None,
        connection_tracker: None,
        ipcache_lifetime: None,
        ipcache_hostname: None,
        synack_split: None,
        modified_tll: None,
        modified_ttl_ip_v6: None,
        modified_auto_ttl: None,
        modifier_auto_ttl_ip_v6: None,
        user: None,
        uid: None,
        gid: None,
    }
}

/// The default connection tracker timeouts: 1 minute for SYN, 5 minutes for
/// established connections, 1 minute for FIN and 1 minute for UDP.
pub open spec fn default_conn_track_timeouts() -> ConnTrackTimeouts {
    ConnTrackTimeouts {
        syn: spec_duration_from_secs(60),
        established: spec_duration_from_secs(300),
        fin: spec_duration_from_secs(60),
        udp: Some(spec_duration_from_secs(60)),
    }
}

/// The default automatic TTL: delta 5, between 3 and 64.
pub open spec fn default_auto_ttl_view() -> (i32, Option<u32>, Option<u32>) {
    (5i32, Some(3u32), Some(64u32))
}

/// The parameters of nfqws.
pub struct Params {
    bind_fix: Option<BindFix>,
    queue: Option<u16>,
    connection_tracker_timeouts: ConnTrackTimeouts,
    window_size: Option<WindowSize>,
    window_size_cutoff: Option<(WindowSizeCutoff, u32)>,
    window_size_forced_cutoff: bool,
    connection_tracker: bool,
    ipcache_lifetime: Option<Duration>,
    ipcache_hostname: bool,
    synack_split: Option<SynackSplit>,
    modified_tll: Option<u16>,
    modified_ttl_ip_v6: Option<u16>,
    modified_auto_ttl: AutoTTL,
    modifier_auto_ttl_ip_v6: AutoTTL,
    user: Option<String>,
    uid: Option<u16>,
    gid: Option<u16>,
}

impl View for Params {
    type V = ParamsView;

    closed spec fn view(&self) -> ParamsView {
        ParamsView {
            bind_fix: self.bind_fix,
            queue: self.queue,
            connection_tracker_timeouts: self.connection_tracker_timeouts,
            window_size: self.window_size,
            window_size_cutoff: self.window_size_cutoff,
            window_size_forced_cutoff: self.window_size_forced_cutoff,
            connection_tracker: self.connection_tracker,
            ipcache_lifetime: self.ipcache_lifetime,
            ipcache_hostname: self.ipcache_hostname,
            synack_split: self.synack_split,
            modified_tll: self.modified_tll,
            modified_ttl_ip_v6: self.modified_ttl_ip_v6,
            modified_auto_ttl: self.modified_auto_ttl,
            modifier_auto_ttl_ip_v6: self.modifier_auto_ttl_ip_v6,
            user: opt_text(self.user),
            uid: self.uid,
            gid: self.gid,
        }
    }
}

/// Why a [`Params`] could not be built: the named required value was not
/// given.
#[derive(Debug)]
pub enum ParamsBuildError {
    MissingRequiredValue(&'static str),
}

/// A builder for [`Params`]. Values that are not given stay absent, or take
/// their default: the connection tracker timeouts of
/// `default_conn_track_timeouts`, `window_size_forced_cutoff` true,
/// `connection_tracker` false, `ipcache_hostname` true, `modified_auto_ttl`
/// delta 5 between 3 and 64, and `modifier_auto_ttl_ip_v6` the value of
/// `modified_auto_ttl`.
#[derive(Clone)]
pub struct ParamsBuilder {
    bind_fix: Option<BindFix>,
    queue: Option<u16>,
    connection_tracker_timeouts: Option<ConnTrackTimeouts>,
    window_size: Option<WindowSize>,
    window_size_cutoff: Option<(WindowSizeCutoff, u32)>,
    window_size_forced_cutoff: Option<bool>,
    connection_tracker: Option<bool>,
    ipcache_lifetime: Option<Duration>,
    ipcache_hostname: Option<bool>,
    synack_split: Option<SynackSplit>,
    modified_tll: Option<u16>,
    modified_ttl_ip_v6: Option<u16>,
    modified_auto_ttl: Option<AutoTTL>,
    modifier_auto_ttl_ip_v6: Option<AutoTTL>,
    user: Option<String>,
    uid: Option<u16>,
    gid: Option<u16>,
}

impl View for ParamsBuilder {
    type V = ParamsBuilderView;

    closed spec fn view(&self) -> ParamsBuilderView {
        ParamsBuilderView {
            bind_fix: self.bind_fix,
            queue: self.queue,
            connection_tracker_timeouts: self.connection_tracker_timeouts,
            window_size: self.window_size,
            window_size_cutoff: self.window_size_cutoff,
            window_size_forced_cutoff: self.window_size_forced_cutoff,
            connection_tracker: self.connection_tracker,
            ipcache_lifetime: self.ipcache_lifetime,
            ipcache_hostname: self.ipcache_hostname,
            synack_split: self.synack_split,
            modified_tll: self.modified_tll,
            modified_ttl_ip_v6: self.modified_ttl_ip_v6,
            modified_auto_ttl: self.modified_auto_ttl,
            modifier_auto_ttl_ip_v6: self.modifier_auto_ttl_ip_v6,
            user: opt_text(self.user),
            uid: self.uid,
            gid: self.gid,
        }
    }
}

impl Default for ParamsBuilder {
    fn default() -> (res: Self)
        ensures
            res@ == empty_params_builder(),
    {
        ParamsBuilder {
            bind_fix: None,
            queue: None,
            connection_tracker_timeouts: None,
            window_size: None,
            window_size_cutoff: None,
            window_size_forced_cutoff: None,
            connection_tracker: None,
            ipcache_lifetime: None,
            ipcache_hostname: None,
            synack_split: None,
            modified_tll: None,
            modified_ttl_ip_v6: None,
            modified_auto_ttl: None,
            modifier_auto_ttl_ip_v6: None,
            user: None,
            uid: None,
            gid: None,
        }
    }
}

impl ParamsBuilder {
    /// A builder with no value given.
    pub fn new() -> (res: Self)
        ensures
            res@ == empty_params_builder(),
    {
        Self::default()
    }

    /// Trying to solve the problem of incorrect selection
    /// of outgoing interface for generated ip packets
    pub fn bind_fix_mut(&mut self, value: BindFix) -> (res: &mut Self)
        ensures
            (*res)@ == (ParamsBuilderView { bind_fix: Some(value), ..old(self)@ }),
            *final(self) == *final(res),
    {
        self.bind_fix = Some(value);
        self
    }

    /// Trying to solve the problem of incorrect selection
    /// of outgoing interface for generated ip packets
    pub fn bind_fix(self, value: BindFix) -> (res: Self)
        ensures
            res@ == (ParamsBuilderView { bind_fix: Some(value), ..self@ }),
    {
        let mut b = self;
        b.bind_fix_mut(value);
        b
    }

    /// Number of the queue
    pub fn queue_mut(&mut self, value: u16) -> (res: &mut Self)
        ensures
            (*res)@ == (ParamsBuilderView { queue: Some(value), ..old(self)@ }),
            *final(self) == *final(res),
    {
        self.queue = Some(value);
        self
    }

    /// Number of the queue
    pub fn queue(self, value: u16) -> (res: Self)
        ensures
            res@ == (ParamsBuilderView { queue: Some(value), ..self@ }),
    {
        let mut b = self;
        b.queue_mut(value);
        b
    }

    /// Timeouts for internal connection tacker
    pub fn connection_tracker_timeouts_mut(&mut self, value: ConnTrackTimeouts) -> (res: &mut Self)
        ensures
            (*res)@ == (ParamsBuilderView { connection_tracker_timeouts: Some(value), ..old(self)@ }),
            *final(self) == *final(res),
    {
        self.connection_tracker_timeouts = Some(value);
        self
    }

    /// Timeouts for internal connection tacker
    pub fn connection_tracker_timeouts(self, value: ConnTrackTimeouts) -> (res: Self)
        ensures
            res@ == (ParamsBuilderView { connection_tracker_timeouts: Some(value), ..self@ }),
    {
        let mut b = self;
        b.connection_tracker_timeouts_mut(value);
        b
    }

    /// Change tcp window size in outgoing packets
    pub fn window_size_mut(&mut self, value: WindowSize) -> (res: &mut Self)
        ensures
            (*res)@ == (ParamsBuilderView { window_size: Some(value), ..old(self)@ }),
            *final(self) == *final(res),
    {
        self.window_size = Some(value);
        self
    }

    /// Change tcp window size in outgoing packets
    pub fn window_size(self, value: WindowSize) -> (res: Self)
        ensures
            res@ == (ParamsBuilderView { window_size: Some(value), ..self@ }),
    {
        let mut b = self;
        b.window_size_mut(value);
        b
    }

    /// Change server window size in outgoing source packets,
    /// data packets, relative to a sequence number less than N
    pub fn window_size_cutoff_mut(&mut self, value: (WindowSizeCutoff, u32)) -> (res: &mut Self)
        ensures
            (*res)@ == (ParamsBuilderView { window_size_cutoff: Some(value), ..old(self)@ }),
            *final(self) == *final(res),
    {
        self.window_size_cutoff = Some(value);
        self
    }

    /// Change server window size in outgoing source packets,
    /// data packets, relative to a sequence number less than N
    pub fn window_size_cutoff(self, value: (WindowSizeCutoff, u32)) -> (res: Self)
        ensures
            res@ == (ParamsBuilderView { window_size_cutoff: Some(value), ..self@ }),
    {
        let mut b = self;
        b.window_size_cutoff_mut(value);
        b
    }

    /// Automatically disable window size when
    /// a known protocol is detected
    pub fn window_size_forced_cutoff_mut(&mut self, value: bool) -> (res: &mut Self)
        ensures
            (*res)@ == (ParamsBuilderView { window_size_forced_cutoff: Some(value), ..old(self)@ }),
            *final(self) == *final(res),
    {
        self.window_size_forced_cutoff = Some(value);
        self
    }

    /// Automatically disable window size when
    /// a known protocol is detected
    pub fn window_size_forced_cutoff(self, value: bool) -> (res: Self)
        ensures
            res@ == (ParamsBuilderView { window_size_forced_cutoff: Some(value), ..self@ }),
    {
        let mut b = self;
        b.window_size_forced_cutoff_mut(value);
        b
    }

    /// Internal connection tracker enabled or disabled
    pub fn connection_tracker_mut(&mut self, value: bool) -> (res: &mut Self)
        ensures
            (*res)@ == (ParamsBuilderView { connection_tracker: Some(value), ..old(self)@ }),
            *final(self) == *final(res),
    {
        self.connection_tracker = Some(value);
        self
    }

    /// Internal connection tracker enabled or disabled
    pub fn connection_tracker(self, value: bool) -> (res: Self)
        ensures
            res@ == (ParamsBuilderView { connection_tracker: Some(value), ..self@ }),
    {
        let mut b = self;
        b.connection_tracker_mut(value);
        b
    }

    /// Ip cache lifetime. [`None`] - without limit
    pub fn ipcache_lifetime_mut(&mut self, value: Duration) -> (res: &mut Self)
        ensures
            (*res)@ == (ParamsBuilderView { ipcache_lifetime: Some(value), ..old(self)@ }),
            *final(self) == *final(res),
    {
        self.ipcache_lifetime = Some(value);
        self
    }

    /// Ip cache lifetime. [`None`] - without limit
    pub fn ipcache_lifetime(self, value: Duration) -> (res: Self)
        ensures
            res@ == (ParamsBuilderView { ipcache_lifetime: Some(value), ..self@ }),
    {
        let mut b = self;
        b.ipcache_lifetime_mut(value);
        b
    }

    /// Enable hostname caching for use in phase zero strategies
    pub fn ipcache_hostname_mut(&mut self, value: bool) -> (res: &mut Self)
        ensures
            (*res)@ == (ParamsBuilderView { ipcache_hostname: Some(value), ..old(self)@ }),
            *final(self) == *final(res),
    {
        self.ipcache_hostname = Some(value);
        self
    }

    /// Enable hostname caching for use in phase zero strategies
    pub fn ipcache_hostname(self, value: bool) -> (res: Self)
        ensures
            res@ == (ParamsBuilderView { ipcache_hostname: Some(value), ..self@ }),
    {
        let mut b = self;
        b.ipcache_hostname_mut(value);
        b
    }

    /// Do tcp handshake
    /// Instead of SYN,ACK send only SYN, SYN+ACK or ACK+SYN
    pub fn synack_split_mut(&mut self, value: SynackSplit) -> (res: &mut Self)
        ensures
            (*res)@ == (ParamsBuilderView { synack_split: Some(value), ..old(self)@ }),
            *final(self) == *final(res),
    {
        self.synack_split = Some(value);
        self
    }

    /// Do tcp handshake
    /// Instead of SYN,ACK send only SYN, SYN+ACK or ACK+SYN
    pub fn synack_split(self, value: SynackSplit) -> (res: Self)
        ensures
            res@ == (ParamsBuilderView { synack_split: Some(value), ..self@ }),
    {
        let mut b = self;
        b.synack_split_mut(value);
        b
    }

    /// Modify the TTL of outgoing packets
    pub fn modified_tll_mut(&mut self, value: u16) -> (res: &mut Self)
        ensures
            (*res)@ == (ParamsBuilderView { modified_tll: Some(value), ..old(self)@ }),
            *final(self) == *final(res),
    {
        self.modified_tll = Some(value);
        self
    }

    /// Modify the TTL of outgoing packets
    pub fn modified_tll(self, value: u16) -> (res: Self)
        ensures
            res@ == (ParamsBuilderView { modified_tll: Some(value), ..self@ }),
    {
        let mut b = self;
        b.modified_tll_mut(value);
        b
    }

    /// Modify the hop limit of outgoing IPv6 packets.
    /// If not provided, [`modified_ttl`] will be used
    pub fn modified_ttl_ip_v6_mut(&mut self, value: u16) -> (res: &mut Self)
        ensures
            (*res)@ == (ParamsBuilderView { modified_ttl_ip_v6: Some(value), ..old(self)@ }),
            *final(self) == *final(res),
    {
        self.modified_ttl_ip_v6 = Some(value);
        self
    }

    /// Modify the hop limit of outgoing IPv6 packets.
    /// If not provided, [`modified_ttl`] will be used
    pub fn modified_ttl_ip_v6(self, value: u16) -> (res: Self)
        ensures
            res@ == (ParamsBuilderView { modified_ttl_ip_v6: Some(value), ..self@ }),
    {
        let mut b = self;
        b.modified_ttl_ip_v6_mut(value);
        b
    }

    /// Auto TTL mode for ipv4
    pub fn modified_auto_ttl_mut(&mut self, value: AutoTTL) -> (res: &mut Self)
        ensures
            (*res)@ == (ParamsBuilderView { modified_auto_ttl: Some(value), ..old(self)@ }),
            *final(self) == *final(res),
    {
        self.modified_auto_ttl = Some(value);
        self
    }

    /// Auto TTL mode for ipv4
    pub fn modified_auto_ttl(self, value: AutoTTL) -> (res: Self)
        ensures
            res@ == (ParamsBuilderView { modified_auto_ttl: Some(value), ..self@ }),
    {
        let mut b = self;
        b.modified_auto_ttl_mut(value);
        b
    }

    /// Auto TTL mode, only for ipv6
    /// If not set, [`modified_auto_ttl`] will be used
    pub fn modifier_auto_ttl_ip_v6_mut(&mut self, value: AutoTTL) -> (res: &mut Self)
        ensures
            (*res)@ == (ParamsBuilderView { modifier_auto_ttl_ip_v6: Some(value), ..old(self)@ }),
            *final(self) == *final(res),
    {
        self.modifier_auto_ttl_ip_v6 = Some(value);
        self
    }

    /// Auto TTL mode, only for ipv6
    /// If not set, [`modified_auto_ttl`] will be used
    pub fn modifier_auto_ttl_ip_v6(self, value: AutoTTL) -> (res: Self)
        ensures
            res@ == (ParamsBuilderView { modifier_auto_ttl_ip_v6: Some(value), ..self@ }),
    {
        let mut b = self;
        b.modifier_auto_ttl_ip_v6_mut(value);
        b
    }

    /// Change process uid
    pub fn user_mut(&mut self, value: String) -> (res: &mut Self)
        ensures
            (*res)@ == (ParamsBuilderView { user: Some(value@), ..old(self)@ }),
            *final(self) == *final(res),
    {
        self.user = Some(value);
        self
    }

    /// Change process uid
    pub fn user(self, value: String) -> (res: Self)
        ensures
            res@ == (ParamsBuilderView { user: Some(value@), ..self@ }),
    {
        let mut b = self;
        b.user_mut(value);
        b
    }

    /// Change process uid
    pub fn uid_mut(&mut self, value: u16) -> (res: &mut Self)
        ensures
            (*res)@ == (ParamsBuilderView { uid: Some(value), ..old(self)@ }),
            *final(self) == *final(res),
    {
        self.uid = Some(value);
        self
    }

    /// Change process uid
    pub fn uid(self, value: u16) -> (res: Self)
        ensures
            res@ == (ParamsBuilderView { uid: Some(value), ..self@ }),
    {
        let mut b = self;
        b.uid_mut(value);
        b
    }

    /// Change process gid
    pub fn gid_mut(&mut self, value: u16) -> (res: &mut Self)
        ensures
            (*res)@ == (ParamsBuilderView { gid: Some(value), ..old(self)@ }),
            *final(self) == *final(res),
    {
        self.gid = Some(value);
        self
    }

    /// Change process gid
    pub fn gid(self, value: u16) -> (res: Self)
        ensures
            res@ == (ParamsBuilderView { gid: Some(value), ..self@ }),
    {
        let mut b = self;
        b.gid_mut(value);
        b
    }

    /// The parameters made of the given values and the defaults; no value
    /// is required, so building always succeeds.
    pub fn build(&self) -> (res: Result<Params, ParamsBuildError>)
        ensures
            res matches Ok(p) && {
                &&& p@.bind_fix == self@.bind_fix
                &&& p@.queue == self@.queue
                &&& p@.window_size == self@.window_size
                &&& p@.window_size_cutoff == self@.window_size_cutoff
                &&& p@.ipcache_lifetime == self@.ipcache_lifetime
                &&& p@.synack_split == self@.synack_split
                &&& p@.modified_tll == self@.modified_tll
                &&& p@.modified_ttl_ip_v6 == self@.modified_ttl_ip_v6
                &&& p@.user == self@.user
                &&& p@.uid == self@.uid
                &&& p@.gid == self@.gid
                &&& p@.connection_tracker_timeouts == match self@.connection_tracker_timeouts {
                    Some(v) => v,
                    None => default_conn_track_timeouts(),
                }
                &&& p@.window_size_forced_cutoff == match self@.window_size_forced_cutoff {
                    Some(v) => v,
                    None => true,
                }
                &&& p@.connection_tracker == match self@.connection_tracker {
                    Some(v) => v,
                    None => false,
                }
                &&& p@.ipcache_hostname == match self@.ipcache_hostname {
                    Some(v) => v,
                    None => true,
                }
                &&& self@.modified_auto_ttl matches Some(v) ==> p@.modified_auto_ttl == v
                &&& self@.modified_auto_ttl is None ==> p@.modified_auto_ttl@ == default_auto_ttl_view()
                &&& self@.modifier_auto_ttl_ip_v6 matches Some(v) ==> p@.modifier_auto_ttl_ip_v6 == v
                &&& self@.modifier_auto_ttl_ip_v6 is None ==> p@.modifier_auto_ttl_ip_v6
                    == p@.modified_auto_ttl
            },
    {
        let connection_tracker_timeouts = match self.connection_tracker_timeouts {
            Some(v) => v,
            None => ConnTrackTimeouts::new(
                duration_from_secs(60),
                duration_from_secs(300),
                duration_from_secs(60),
                Some(duration_from_secs(60)),
            ),
        };
        let window_size_forced_cutoff = match self.window_size_forced_cutoff {
            Some(v) => v,
            None => true,
        };
        let connection_tracker = match self.connection_tracker {
            Some(v) => v,
            None => false,
        };
        let ipcache_hostname = match self.ipcache_hostname {
            Some(v) => v,
            None => true,
        };
        let modified_auto_ttl = match self.modified_auto_ttl {
            Some(v) => v,
            None => AutoTTL::new(5, Some(3), Some(64)),
        };
        let modifier_auto_ttl_ip_v6 = match self.modifier_auto_ttl_ip_v6 {
            Some(v) => v,
            None => modified_auto_ttl,
        };
        let user = match &self.user {
            Some(u) => Some(u.clone()),
            None => None,
        };
        Ok(
            Params {
                bind_fix: self.bind_fix,
                queue: self.queue,
                connection_tracker_timeouts,
                window_size: self.window_size,
                window_size_cutoff: self.window_size_cutoff,
                window_size_forced_cutoff,
                connection_tracker,
                ipcache_lifetime: self.ipcache_lifetime,
                ipcache_hostname,
                synack_split: self.synack_split,
                modified_tll: self.modified_tll,
                modified_ttl_ip_v6: self.modified_ttl_ip_v6,
                modified_auto_ttl,
                modifier_auto_ttl_ip_v6,
                user,
                uid: self.uid,
                gid: self.gid,
            },
        )
    }
}

impl Params {
    /// A builder with no value given.
    pub fn builder() -> (res: ParamsBuilder)
        ensures
            res@ == empty_params_builder(),
    {
        ParamsBuilder::new()
    }

    /// Trying to solve the problem of incorrect selection
    /// of outgoing interface for generated ip packets
    pub fn bind_fix(&self) -> (res: &Option<BindFix>)
        ensures
            *res == self@.bind_fix,
    {
        &self.bind_fix
    }

    /// Number of the queue
    pub fn queue(&self) -> (res: &Option<u16>)
        ensures
            *res == self@.queue,
    {
        &self.queue
    }

    /// Timeouts for internal connection tacker
    pub fn connection_tracker_timeouts(&self) -> (res: &ConnTrackTimeouts)
        ensures
            *res == self@.connection_tracker_timeouts,
    {
        &self.connection_tracker_timeouts
    }

    /// Change tcp window size in outgoing packets
    pub fn window_size(&self) -> (res: &Option<WindowSize>)
        ensures
            *res == self@.window_size,
    {
        &self.window_size
    }

    /// Change server window size in outgoing source packets,
    /// data packets, relative to a sequence number less than N
    pub fn window_size_cutoff(&self) -> (res: &Option<(WindowSizeCutoff, u32)>)
        ensures
            *res == self@.window_size_cutoff,
    {
        &self.window_size_cutoff
    }

    /// Automatically disable window size when
    /// a known protocol is detected
    pub fn window_size_forced_cutoff(&self) -> (res: &bool)
        ensures
            *res == self@.window_size_forced_cutoff,
    {
        &self.window_size_forced_cutoff
    }

    /// Internal connection tracker enabled or disabled
    pub fn connection_tracker(&self) -> (res: &bool)
        ensures
            *res == self@.connection_tracker,
    {
        &self.connection_tracker
    }

    /// Ip cache lifetime. [`None`] - without limit
    pub fn ipcache_lifetime(&self) -> (res: &Option<Duration>)
        ensures
            *res == self@.ipcache_lifetime,
    {
        &self.ipcache_lifetime
    }

    /// Enable hostname caching for use in phase zero strategies
    pub fn ipcache_hostname(&self) -> (res: &bool)
        ensures
            *res == self@.ipcache_hostname,
    {
        &self.ipcache_hostname
    }

    /// Do tcp handshake
    /// Instead of SYN,ACK send only SYN, SYN+ACK or ACK+SYN
    pub fn synack_split(&self) -> (res: &Option<SynackSplit>)
        ensures
            *res == self@.synack_split,
    {
        &self.synack_split
    }

    /// Modify the TTL of outgoing packets
    pub fn modified_tll(&self) -> (res: &Option<u16>)
        ensures
            *res == self@.modified_tll,
    {
        &self.modified_tll
    }

    /// Modify the hop limit of outgoing IPv6 packets.
    /// If not provided, [`modified_ttl`] will be used
    pub fn modified_ttl_ip_v6(&self) -> (res: &Option<u16>)
        ensures
            *res == self@.modified_ttl_ip_v6,
    {
        &self.modified_ttl_ip_v6
    }

    /// Auto TTL mode for ipv4
    pub fn modified_auto_ttl(&self) -> (res: &AutoTTL)
        ensures
            *res == self@.modified_auto_ttl,
    {
        &self.modified_auto_ttl
    }

    /// Auto TTL mode, only for ipv6
    /// If not set, [`modified_auto_ttl`] will be used
    pub fn modifier_auto_ttl_ip_v6(&self) -> (res: &AutoTTL)
        ensures
            *res == self@.modifier_auto_ttl_ip_v6,
    {
        &self.modifier_auto_ttl_ip_v6
    }

    /// Change process uid
    pub fn user(&self) -> (res: &Option<String>)
        ensures
            opt_text(*res) == self@.user,
    {
        &self.user
    }

    /// Change process uid
    pub fn uid(&self) -> (res: &Option<u16>)
        ensures
            *res == self@.uid,
    {
        &self.uid
    }

    /// Change process gid
    pub fn gid(&self) -> (res: &Option<u16>)
        ensures
            *res == self@.gid,
    {
        &self.gid
    }
}

} // verus!
