//! The socket binding of nfqws: a builder with required and defaulted
//! values, the built binding, and its fixed-size form for the C side.

use vstd::prelude::*;
use vstd::utf8::encode_utf8;
use crate::cstr::{c_array_bytes, str_to_c_array};
use crate::ip::{IpAddr, ip_text};
use crate::params::BindLl;

verus! {

/// Length of an interface name buffer, terminating NUL included.
pub const IF_NAMESIZE: usize = 16;

/// Length of the textual address buffer.
pub const BIND_ADDR_SIZE: usize = 64;

/// What a [`BindBuilder`] holds: each value, if it was given.
pub struct BindBuilderView {
    pub addr: Option<IpAddr>,
    pub iface: Option<Seq<char>>,
    pub ll: Option<BindLl>,
    pub wait_ifup: Option<i32>,
    pub wait_ip: Option<i32>,
    pub wait_ip_ll: Option<i32>,
}

/// What a [`Bind`] holds.
pub struct BindView {
    pub addr: IpAddr,
    pub iface: Seq<char>,
    pub ll: BindLl,
    pub wait_ifup: i32,
    pub wait_ip: i32,
    pub wait_ip_ll: i32,
}

/// The empty builder state.
pub open spec fn empty_bind_builder() -> BindBuilderView {
    BindBuilderView {
        addr: None,
        iface: None,
        ll: None,
        wait_ifup: None,
        wait_ip: None,
        wait_ip_ll: None,
    }
}

/// A value that was given, or the default of its type.
pub open spec fn or_zero(v: Option<i32>) -> i32 {
    match v {
        Some(x) => x,
        None => 0,
    }
}

/// The view of a text that may be absent.
pub open spec fn opt_text(s: Option<String>) -> Option<Seq<char>> {
    match s {
        Some(t) => Some(t@),
        None => None,
    }
}

/// A socket binding of nfqws.
pub struct Bind {
    addr: IpAddr,
    iface: String,
    ll: BindLl,
    wait_ifup: i32,
    wait_ip: i32,
    wait_ip_ll: i32,
}

impl View for Bind {
    type V = BindView;

    closed spec fn view(&self) -> BindView {
        BindView {
            addr: self.addr,
            iface: self.iface@,
            ll: self.ll,
            wait_ifup: self.wait_ifup,
            wait_ip: self.wait_ip,
            wait_ip_ll: self.wait_ip_ll,
        }
    }
}

/// Why a [`Bind`] could not be built: the named required value was not
/// given.
#[derive(Debug)]
pub enum BindBuildError {
    MissingRequiredValue(&'static str),
}

/// A builder for [`Bind`]: `addr`, `iface` and `ll` are required;
/// `wait_ifup`, `wait_ip` and `wait_ip_ll` default to 0.
#[derive(Clone)]
pub struct BindBuilder {
    addr: Option<IpAddr>,
    iface: Option<String>,
    ll: Option<BindLl>,
    wait_ifup: Option<i32>,
    wait_ip: Option<i32>,
    wait_ip_ll: Option<i32>,
}

impl View for BindBuilder {
    type V = BindBuilderView;

    closed spec fn view(&self) -> BindBuilderView {
        BindBuilderView {
            addr: self.addr,
            iface: opt_text(self.iface),
            ll: self.ll,
            wait_ifup: self.wait_ifup,
            wait_ip: self.wait_ip,
            wait_ip_ll: self.wait_ip_ll,
        }
    }
}

impl Default for BindBuilder {
    fn default() -> (res: Self)
        ensures
            res@ == empty_bind_builder(),
    {
        BindBuilder {
            addr: None,
            iface: None,
            ll: None,
            wait_ifup: None,
            wait_ip: None,
            wait_ip_ll: None,
        }
    }
}

impl BindBuilder {
    /// A builder with no value given.
    pub fn new() -> (res: Self)
        ensures
            res@ == empty_bind_builder(),
    {
        Self::default()
    }

    /// The IP address to bind to.
    pub fn addr_mut(&mut self, value: IpAddr) -> (res: &mut Self)
        ensures
            (*res)@ == (BindBuilderView { addr: Some(value), ..old(self)@ }),
            *final(self) == *final(res),
    {
        self.addr = Some(value);
        self
    }

    /// The IP address to bind to.
    pub fn addr(self, value: IpAddr) -> (res: Self)
        ensures
            res@ == (BindBuilderView { addr: Some(value), ..self@ }),
    {
        let mut b = self;
        b.addr_mut(value);
        b
    }

    /// The network interface name.
    pub fn iface_mut(&mut self, value: String) -> (res: &mut Self)
        ensures
            (*res)@ == (BindBuilderView { iface: Some(value@), ..old(self)@ }),
            *final(self) == *final(res),
    {
        self.iface = Some(value);
        self
    }

    /// The network interface name.
    pub fn iface(self, value: String) -> (res: Self)
        ensures
            res@ == (BindBuilderView { iface: Some(value@), ..self@ }),
    {
        let mut b = self;
        b.iface_mut(value);
        b
    }

    /// Link-layer information.
    pub fn ll_mut(&mut self, value: BindLl) -> (res: &mut Self)
        ensures
            (*res)@ == (BindBuilderView { ll: Some(value), ..old(self)@ }),
            *final(self) == *final(res),
    {
        self.ll = Some(value);
        self
    }

    /// Link-layer information.
    pub fn ll(self, value: BindLl) -> (res: Self)
        ensures
            res@ == (BindBuilderView { ll: Some(value), ..self@ }),
    {
        let mut b = self;
        b.ll_mut(value);
        b
    }

    /// Wait for the interface to be up before use (can be a timeout or logical flag).
    pub fn wait_ifup_mut(&mut self, value: i32) -> (res: &mut Self)
        ensures
            (*res)@ == (BindBuilderView { wait_ifup: Some(value), ..old(self)@ }),
            *final(self) == *final(res),
    {
        self.wait_ifup = Some(value);
        self
    }

    /// Wait for the interface to be up before use (can be a timeout or logical flag).
    pub fn wait_ifup(self, value: i32) -> (res: Self)
        ensures
            res@ == (BindBuilderView { wait_ifup: Some(value), ..self@ }),
    {
        let mut b = self;
        b.wait_ifup_mut(value);
        b
    }

    /// Wait for the IP address to appear on the interface.
    pub fn wait_ip_mut(&mut self, value: i32) -> (res: &mut Self)
        ensures
            (*res)@ == (BindBuilderView { wait_ip: Some(value), ..old(self)@ }),
            *final(self) == *final(res),
    {
        self.wait_ip = Some(value);
        self
    }

    /// Wait for the IP address to appear on the interface.
    pub fn wait_ip(self, value: i32) -> (res: Self)
        ensures
            res@ == (BindBuilderView { wait_ip: Some(value), ..self@ }),
    {
        let mut b = self;
        b.wait_ip_mut(value);
        b
    }

    /// Wait for a link-local address (for example, for IPv6).
    pub fn wait_ip_ll_mut(&mut self, value: i32) -> (res: &mut Self)
        ensures
            (*res)@ == (BindBuilderView { wait_ip_ll: Some(value), ..old(self)@ }),
            *final(self) == *final(res),
    {
        self.wait_ip_ll = Some(value);
        self
    }

    /// Wait for a link-local address (for example, for IPv6).
    pub fn wait_ip_ll(self, value: i32) -> (res: Self)
        ensures
            res@ == (BindBuilderView { wait_ip_ll: Some(value), ..self@ }),
    {
        let mut b = self;
        b.wait_ip_ll_mut(value);
        b
    }

    /// The binding made of the given values, or the first required value
    /// (`addr`, then `iface`, then `ll`) that was not given.
    pub fn build(&self) -> (res: Result<Bind, BindBuildError>)
        ensures
            res is Ok <==> (self@.addr is Some && self@.iface is Some && self@.ll is Some),
            self@.addr is None ==> (res matches Err(BindBuildError::MissingRequiredValue(n))
                && n@ == "addr"@),
            self@.addr is Some && self@.iface is None ==> (res matches Err(
                BindBuildError::MissingRequiredValue(n),
            ) && n@ == "iface"@),
            self@.addr is Some && self@.iface is Some && self@.ll is None ==> (res matches Err(
                BindBuildError::MissingRequiredValue(n),
            ) && n@ == "ll"@),
            res matches Ok(b) ==> {
                &&& self@.addr == Some(b@.addr)
                &&& self@.iface == Some(b@.iface)
                &&& self@.ll == Some(b@.ll)
                &&& b@.wait_ifup == or_zero(self@.wait_ifup)
                &&& b@.wait_ip == or_zero(self@.wait_ip)
                &&& b@.wait_ip_ll == or_zero(self@.wait_ip_ll)
            },
    {
        let addr = match self.addr {
            Some(a) => a,
            None => {
                return Err(BindBuildError::MissingRequiredValue("addr"));
            },
        };
        let iface = match &self.iface {
            Some(i) => i.clone(),
            None => {
                return Err(BindBuildError::MissingRequiredValue("iface"));
            },
        };
        let ll = match self.ll {
            Some(l) => l,
            None => {
                return Err(BindBuildError::MissingRequiredValue("ll"));
            },
        };
        let wait_ifup = match self.wait_ifup {
            Some(v) => v,
            None => 0,
        };
        let wait_ip = match self.wait_ip {
            Some(v) => v,
            None => 0,
        };
        let wait_ip_ll = match self.wait_ip_ll {
            Some(v) => v,
            None => 0,
        };
        Ok(Bind { addr, iface, ll, wait_ifup, wait_ip, wait_ip_ll })
    }
}

impl Bind {
    /// A builder with no value given.
    pub fn builder() -> (res: BindBuilder)
        ensures
            res@ == empty_bind_builder(),
    {
        BindBuilder::new()
    }

    /// The IP address to bind to.
    pub fn addr(&self) -> (res: &IpAddr)
        ensures
            *res == self@.addr,
    {
        &self.addr
    }

    /// The network interface name.
    pub fn iface(&self) -> (res: &String)
        ensures
            res@ == self@.iface,
    {
        &self.iface
    }

    /// Link-layer information.
    pub fn ll(&self) -> (res: &BindLl)
        ensures
            *res == self@.ll,
    {
        &self.ll
    }

    /// Wait for the interface to be up before use (can be a timeout or logical flag).
    pub fn wait_ifup(&self) -> (res: &i32)
        ensures
            *res == self@.wait_ifup,
    {
        &self.wait_ifup
    }

    /// Wait for the IP address to appear on the interface.
    pub fn wait_ip(&self) -> (res: &i32)
        ensures
            *res == self@.wait_ip,
    {
        &self.wait_ip
    }

    /// Wait for a link-local address (for example, for IPv6).
    pub fn wait_ip_ll(&self) -> (res: &i32)
        ensures
            *res == self@.wait_ip_ll,
    {
        &self.wait_ip_ll
    }
}

/// A binding in the fixed-size form that the C side of nfqws reads: the
/// address text and the interface name as NUL-terminated byte buffers.
pub struct RawBind {
    pub bindaddr: [u8; BIND_ADDR_SIZE],
    pub bindiface: [u8; IF_NAMESIZE],
    pub bindll: BindLl,
    pub bind_wait_ifup: i32,
    pub bind_wait_ip: i32,
    pub bind_wait_ip_ll: i32,
}

impl RawBind {
    /// The fixed-size form of a binding: the textual address and the
    /// interface name copied into their buffers (cut to the buffer size),
    /// the other values unchanged.
    pub fn from(bind: Bind) -> (res: RawBind)
        ensures
            res.bindaddr@ == c_array_bytes(encode_utf8(ip_text(bind@.addr)), BIND_ADDR_SIZE as nat),
            res.bindiface@ == c_array_bytes(encode_utf8(bind@.iface), IF_NAMESIZE as nat),
            res.bindll == bind@.ll,
            res.bind_wait_ifup == bind@.wait_ifup,
            res.bind_wait_ip == bind@.wait_ip,
            res.bind_wait_ip_ll == bind@.wait_ip_ll,
    {
        let addr_text = bind.addr().to_string();
        let bindaddr = str_to_c_array::<BIND_ADDR_SIZE>(addr_text.as_str());
        let bindiface = str_to_c_array::<IF_NAMESIZE>(bind.iface().as_str());
        RawBind {
            bindaddr,
            bindiface,
            bindll: *bind.ll(),
            bind_wait_ifup: *bind.wait_ifup(),
            bind_wait_ip: *bind.wait_ip(),
            bind_wait_ip_ll: *bind.wait_ip_ll(),
        }
    }
}

} // verus!
