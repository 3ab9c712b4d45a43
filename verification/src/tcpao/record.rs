//! The kernel's record for one TCP-AO key: the peer's address as the kernel
//! stores it, the algorithm's canonical name, and the key, each in a
//! buffer of the kernel's size.

use crate::addr::{v4_octets, v6_octets, IpAddress, SocketAddress};
use crate::config::{AoPolicyConfig, PolicyView};
use crate::error::{IoFailure, IoFailureView, IoKind};
use crate::text::{
    append_decimal, ascii_lower, decimal_text, lemma_trimmed_fixed, lower_equals, trim, trimmed,
};
use vstd::prelude::*;
use vstd::string::*;
use vstd::utf8::encode_utf8;

verus! {

/// Size of the kernel's buffer for the algorithm's name, its final NUL included.
pub const ALG_NAME_LEN: usize = 64;

/// The prefix length under which a peer address is matched: the whole
/// address for a concrete peer, nothing for the unspecified address.
pub open spec fn prefix_len(ip: IpAddress) -> u8 {
    if ip.unspecified() {
        0
    } else if ip is V4 {
        32
    } else {
        128
    }
}

pub fn prefix_len_for_ip(ip: IpAddress) -> (len: u8)
    ensures
        len == prefix_len(ip),
{
    match ip {
        IpAddress::V4(bits) => if bits == 0 {
            0
        } else {
            32
        },
        IpAddress::V6(bits) => if bits == 0 {
            0
        } else {
            128
        },
    }
}

/// The kernel's name for a MAC algorithm and the length of its MAC, from
/// a name that is trimmed already: the known spellings of each algorithm,
/// in any case, give its canonical name; any other name is passed through
/// as it stands, with a MAC of 12 bytes.
pub open spec fn canonical_mac_alg(name: Seq<char>) -> (Seq<char>, u8) {
    let lower = ascii_lower(name);
    if lower == "hmac-sha1"@ || lower == "hmac-sha-1"@ || lower == "hmac(sha1)"@ {
        ("hmac(sha1)"@, 12u8)
    } else if lower == "hmac-sha256"@ || lower == "hmac-sha-256"@ || lower == "hmac(sha256)"@ {
        ("hmac(sha256)"@, 16u8)
    } else if lower == "cmac-aes"@ || lower == "cmac-aes-128"@ || lower == "cmac(aes)"@ {
        ("cmac(aes)"@, 12u8)
    } else {
        (name, 12u8)
    }
}

/// The outcome of normalizing a configured algorithm name: the name is
/// trimmed first; an empty name is refused, and so is a result of 64 bytes
/// or more.
pub open spec fn normalized_mac_alg(value: Seq<char>) -> Result<(Seq<char>, u8), IoFailureView> {
    let name = trimmed(value);
    if name.len() == 0 {
        Err(
            IoFailureView {
                kind: IoKind::InvalidInput,
                os_code: None,
                message: "mac_alg must not be empty"@,
            },
        )
    } else if encode_utf8(canonical_mac_alg(name).0).len() >= ALG_NAME_LEN {
        Err(
            IoFailureView {
                kind: IoKind::InvalidInput,
                os_code: None,
                message: "mac_alg string is too long for kernel tcp_ao_add"@,
            },
        )
    } else {
        Ok(canonical_mac_alg(name))
    }
}

/// A canonical name stands for itself: it is trimmed, in lower case, and
/// one of its algorithm's spellings.
proof fn lemma_canonical_names_fixed()
    ensures
        trimmed("hmac(sha1)"@) == "hmac(sha1)"@,
        trimmed("hmac(sha256)"@) == "hmac(sha256)"@,
        trimmed("cmac(aes)"@) == "cmac(aes)"@,
        "hmac(sha1)"@.len() > 0 && "hmac(sha256)"@.len() > 0 && "cmac(aes)"@.len() > 0,
        canonical_mac_alg("hmac(sha1)"@) == ("hmac(sha1)"@, 12u8),
        canonical_mac_alg("hmac(sha256)"@) == ("hmac(sha256)"@, 16u8),
        canonical_mac_alg("cmac(aes)"@) == ("cmac(aes)"@, 12u8),
{
    reveal_strlit("hmac-sha1");
    reveal_strlit("hmac-sha-1");
    reveal_strlit("hmac(sha1)");
    reveal_strlit("hmac-sha256");
    reveal_strlit("hmac-sha-256");
    reveal_strlit("hmac(sha256)");
    reveal_strlit("cmac-aes");
    reveal_strlit("cmac-aes-128");
    reveal_strlit("cmac(aes)");
    assert(ascii_lower("hmac(sha1)"@) =~= "hmac(sha1)"@);
    assert(ascii_lower("hmac(sha256)"@) =~= "hmac(sha256)"@);
    assert(ascii_lower("cmac(aes)"@) =~= "cmac(aes)"@);
}

/// Normalizing is idempotent: what it gives for a name, canonical or
/// passed through, it gives again for that result.
pub proof fn lemma_normalize_idempotent(value: Seq<char>)
    ensures
        normalized_mac_alg(value) matches Ok(found) ==> normalized_mac_alg(found.0) == Ok::<
            _,
            IoFailureView,
        >(found),
{
    lemma_trimmed_fixed(value);
    lemma_canonical_names_fixed();
}

pub fn normalize_mac_alg(value: &str) -> (normalized: Result<(String, u8), IoFailure>)
    ensures
        match normalized {
            Ok((name, maclen)) => normalized_mac_alg(value@) == Ok::<_, IoFailureView>(
                (name@, maclen),
            ),
            Err(e) => normalized_mac_alg(value@) == Err::<(Seq<char>, u8), _>(e@),
        },
{
    let name: &str = trim(value);
    if name.unicode_len() == 0 {
        return Err(
            IoFailure::new(IoKind::InvalidInput, String::from_str("mac_alg must not be empty")),
        );
    }
    let (canonical, maclen): (&str, u8) = if lower_equals(name, "hmac-sha1") || lower_equals(
        name,
        "hmac-sha-1",
    ) || lower_equals(name, "hmac(sha1)") {
        ("hmac(sha1)", 12)
    } else if lower_equals(name, "hmac-sha256") || lower_equals(name, "hmac-sha-256")
        || lower_equals(name, "hmac(sha256)") {
        ("hmac(sha256)", 16)
    } else if lower_equals(name, "cmac-aes") || lower_equals(name, "cmac-aes-128") || lower_equals(
        name,
        "cmac(aes)",
    ) {
        ("cmac(aes)", 12)
    } else {
        (name, 12)
    };
    if canonical.as_bytes().len() >= ALG_NAME_LEN {
        return Err(
            IoFailure::new(
                IoKind::InvalidInput,
                String::from_str("mac_alg string is too long for kernel tcp_ao_add"),
            ),
        );
    }
    Ok((String::from_str(canonical), maclen))
}

/// Size of the kernel's buffer for a key, and so the longest key it takes.
pub const KEY_BUFFER_LEN: usize = 80;

/// `linux_raw_sys::net::TCP_AO_MAXKEYLEN`, the kernel's limit on the
/// length of a TCP-AO key: 80 on every architecture that the crate covers.
#[verifier::external_body]
fn max_key_len() -> (max: usize)
    ensures
        max == KEY_BUFFER_LEN,
{
    linux_raw_sys::net::TCP_AO_MAXKEYLEN as usize
}

/// A socket address as the kernel stores it: the port and the address in
/// network byte order. The family tag is the variant.
#[derive(Clone, Copy, Debug)]
#[allow(inconsistent_fields)]
pub enum KernelSockaddr {
    Inet { port: [u8; 2], addr: [u8; 4] },
    Inet6 { port: [u8; 2], flowinfo: u32, addr: [u8; 16], scope_id: u32 },
}

pub enum SockaddrView {
    Inet { port: Seq<u8>, addr: Seq<u8> },
    Inet6 { port: Seq<u8>, flowinfo: u32, addr: Seq<u8>, scope_id: u32 },
}

impl View for KernelSockaddr {
    type V = SockaddrView;

    open spec fn view(&self) -> SockaddrView {
        match *self {
            KernelSockaddr::Inet { port, addr } => SockaddrView::Inet { port: port@, addr: addr@ },
            KernelSockaddr::Inet6 { port, flowinfo, addr, scope_id } => SockaddrView::Inet6 {
                port: port@,
                flowinfo,
                addr: addr@,
                scope_id,
            },
        }
    }
}

/// The two octets of a port in network byte order.
pub open spec fn port_octets(port: u16) -> Seq<u8> {
    seq![(port / 0x100) as u8, (port % 0x100) as u8]
}

/// What the kernel is given for the address `addr`.
pub open spec fn kernel_sockaddr(addr: SocketAddress) -> SockaddrView {
    match addr {
        SocketAddress::V4 { ip, port } => SockaddrView::Inet {
            port: port_octets(port),
            addr: v4_octets(ip),
        },
        SocketAddress::V6 { ip, port, flowinfo, scope_id } => SockaddrView::Inet6 {
            port: port_octets(port),
            flowinfo,
            addr: v6_octets(ip),
            scope_id,
        },
    }
}

pub fn socket_addr_to_kernel_storage(addr: SocketAddress) -> (storage: KernelSockaddr)
    ensures
        storage@ == kernel_sockaddr(addr),
{
    match addr {
        SocketAddress::V4 { ip, port } => {
            let port_be: [u8; 2] = [(port / 0x100) as u8, (port % 0x100) as u8];
            let octets: [u8; 4] = [
                (ip / 0x100_0000) as u8,
                (ip / 0x1_0000 % 0x100) as u8,
                (ip / 0x100 % 0x100) as u8,
                (ip % 0x100) as u8,
            ];
            KernelSockaddr::Inet { port: port_be, addr: octets }
        },
        SocketAddress::V6 { ip, port, flowinfo, scope_id } => {
            let port_be: [u8; 2] = [(port / 0x100) as u8, (port % 0x100) as u8];
            let octets: [u8; 16] = [
                (ip / 0x1_0000_0000_0000_0000_0000_0000_0000 / 0x100) as u8,
                (ip / 0x1_0000_0000_0000_0000_0000_0000_0000 % 0x100) as u8,
                (ip / 0x1_0000_0000_0000_0000_0000_0000 % 0x1_0000 / 0x100) as u8,
                (ip / 0x1_0000_0000_0000_0000_0000_0000 % 0x1_0000 % 0x100) as u8,
                (ip / 0x1_0000_0000_0000_0000_0000 % 0x1_0000 / 0x100) as u8,
                (ip / 0x1_0000_0000_0000_0000_0000 % 0x1_0000 % 0x100) as u8,
                (ip / 0x1_0000_0000_0000_0000 % 0x1_0000 / 0x100) as u8,
                (ip / 0x1_0000_0000_0000_0000 % 0x1_0000 % 0x100) as u8,
                (ip / 0x1_0000_0000_0000 % 0x1_0000 / 0x100) as u8,
                (ip / 0x1_0000_0000_0000 % 0x1_0000 % 0x100) as u8,
                (ip / 0x1_0000_0000 % 0x1_0000 / 0x100) as u8,
                (ip / 0x1_0000_0000 % 0x1_0000 % 0x100) as u8,
                (ip / 0x1_0000 % 0x1_0000 / 0x100) as u8,
                (ip / 0x1_0000 % 0x1_0000 % 0x100) as u8,
                (ip % 0x1_0000 / 0x100) as u8,
                (ip % 0x1_0000 % 0x100) as u8,
            ];
            assert(octets@ =~= v6_octets(ip));
            KernelSockaddr::Inet6 { port: port_be, flowinfo, addr: octets, scope_id }
        },
    }
}

/// The kernel's record for one key on a socket. Fields of the kernel's
/// record that are not named here are zero.
#[derive(Clone, Debug)]
pub struct KeyInstall {
    pub addr: KernelSockaddr,
    /// The algorithm's name, followed by zeros up to `ALG_NAME_LEN` bytes.
    pub alg_name: Vec<u8>,
    pub set_current: bool,
    pub set_rnext: bool,
    pub prefix: u8,
    pub sndid: u8,
    pub rcvid: u8,
    pub maclen: u8,
    pub keylen: u8,
    /// The key, followed by zeros up to `KEY_BUFFER_LEN` bytes.
    pub key: Vec<u8>,
}

pub struct KeyInstallView {
    pub addr: SockaddrView,
    pub alg_name: Seq<u8>,
    pub set_current: bool,
    pub set_rnext: bool,
    pub prefix: u8,
    pub sndid: u8,
    pub rcvid: u8,
    pub maclen: u8,
    pub keylen: u8,
    pub key: Seq<u8>,
}

impl View for KeyInstall {
    type V = KeyInstallView;

    open spec fn view(&self) -> KeyInstallView {
        KeyInstallView {
            addr: self.addr@,
            alg_name: self.alg_name@,
            set_current: self.set_current,
            set_rnext: self.set_rnext,
            prefix: self.prefix,
            sndid: self.sndid,
            rcvid: self.rcvid,
            maclen: self.maclen,
            keylen: self.keylen,
            key: self.key@,
        }
    }
}

/// `data` followed by zeros, `size` bytes in all.
pub open spec fn zero_padded(data: Seq<u8>, size: int) -> Seq<u8> {
    data + Seq::new((size - data.len()) as nat, |i: int| 0u8)
}

fn pad_with_zeros(data: &[u8], size: usize) -> (buffer: Vec<u8>)
    requires
        data@.len() <= size,
    ensures
        buffer@ == zero_padded(data@, size as int),
{
    let mut buffer: Vec<u8> = Vec::new();
    let mut at: usize = 0;
    while at < data.len()
        invariant
            at <= data@.len() <= size,
            buffer@ == data@.take(at as int),
        decreases data@.len() - at,
    {
        buffer.push(data[at]);
        at += 1;
    }
    while at < size
        invariant
            data@.len() <= at <= size,
            buffer@ == zero_padded(data@, at as int),
        decreases size - at,
    {
        buffer.push(0);
        at += 1;
    }
    buffer
}

pub open spec fn key_too_long(len: nat) -> IoFailureView {
    IoFailureView {
        kind: IoKind::InvalidInput,
        os_code: None,
        message: "ao key too long: "@ + decimal_text(len) + " bytes (max "@ + decimal_text(
            KEY_BUFFER_LEN as nat,
        ) + ")"@,
    }
}

/// The record that installs `key` for `peer` under `policy`, or the reason
/// why there is none: a key longer than the kernel takes, or an algorithm
/// name that it cannot hold. Send and receive identifier are the policy's
/// key identifier; `set_current` makes the key the current send key and the
/// next receive key at once.
pub open spec fn key_install(
    policy: PolicyView,
    peer: SocketAddress,
    key: Seq<u8>,
    set_current: bool,
) -> Result<KeyInstallView, IoFailureView> {
    if key.len() > KEY_BUFFER_LEN {
        Err(key_too_long(key.len()))
    } else {
        match normalized_mac_alg(policy.mac_alg) {
            Err(e) => Err(e),
            Ok((name, maclen)) => Ok(
                KeyInstallView {
                    addr: kernel_sockaddr(peer),
                    alg_name: zero_padded(encode_utf8(name), ALG_NAME_LEN as int),
                    set_current,
                    set_rnext: set_current,
                    prefix: prefix_len(peer.ip()),
                    sndid: policy.keyid,
                    rcvid: policy.keyid,
                    maclen,
                    keylen: key.len() as u8,
                    key: zero_padded(key, KEY_BUFFER_LEN as int),
                },
            ),
        }
    }
}

/// Every record fills the kernel's buffers exactly: the algorithm's name
/// ends in a NUL, the key is as long as `keylen` says and zero beyond, send
/// and receive identifier are the same, and a key is made current and next
/// together or not at all.
pub proof fn lemma_record_shape(
    policy: PolicyView,
    peer: SocketAddress,
    key: Seq<u8>,
    set_current: bool,
)
    ensures
        key_install(policy, peer, key, set_current) matches Ok(r) ==> {
            &&& r.alg_name.len() == ALG_NAME_LEN
            &&& r.alg_name[ALG_NAME_LEN - 1] == 0
            &&& r.key.len() == KEY_BUFFER_LEN
            &&& r.keylen == key.len() <= KEY_BUFFER_LEN
            &&& r.key.take(r.keylen as int) == key
            &&& forall|i: int| r.keylen <= i < KEY_BUFFER_LEN ==> r.key[i] == 0
            &&& r.sndid == r.rcvid == policy.keyid
            &&& r.set_current == set_current
            &&& r.set_rnext == set_current
            &&& r.prefix == prefix_len(peer.ip())
        },
{
}

/// A failure to build a record says nothing of the key but its length: two
/// keys of one length fail alike.
pub proof fn lemma_failure_hides_key(
    policy: PolicyView,
    peer: SocketAddress,
    key: Seq<u8>,
    other: Seq<u8>,
    set_current: bool,
)
    requires
        key.len() == other.len(),
    ensures
        key_install(policy, peer, key, set_current) is Err ==> key_install(
            policy,
            peer,
            other,
            set_current,
        ) == key_install(policy, peer, key, set_current),
{
}

/// Builds the record that installs `key` for `peer` under `policy`.
pub fn install_key(
    policy: &AoPolicyConfig,
    peer: SocketAddress,
    key: &[u8],
    set_current: bool,
) -> (record: Result<KeyInstall, IoFailure>)
    ensures
        match record {
            Ok(r) => key_install(policy@, peer, key@, set_current) == Ok::<_, IoFailureView>(r@),
            Err(e) => key_install(policy@, peer, key@, set_current) == Err::<KeyInstallView, _>(
                e@,
            ),
        },
{
    let max: usize = max_key_len();
    if key.len() > max {
        let mut message = String::from_str("ao key too long: ");
        append_decimal(&mut message, key.len() as u64);
        message.append(" bytes (max ");
        append_decimal(&mut message, max as u64);
        message.append(")");
        let failure = IoFailure::new(IoKind::InvalidInput, message);
        return Err(failure);
    }
    let (name, maclen) = match normalize_mac_alg(policy.mac_alg.as_str()) {
        Ok(found) => found,
        Err(e) => {
            return Err(e);
        },
    };
    Ok(
        KeyInstall {
            addr: socket_addr_to_kernel_storage(peer),
            alg_name: pad_with_zeros(name.as_str().as_bytes(), ALG_NAME_LEN),
            set_current,
            set_rnext: set_current,
            prefix: prefix_len_for_ip(peer.get_ip()),
            sndid: policy.keyid,
            rcvid: policy.keyid,
            maclen,
            keylen: key.len() as u8,
            key: pad_with_zeros(key, max),
        },
    )
}


} // verus!
