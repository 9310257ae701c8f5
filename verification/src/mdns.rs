//! mDNS (DNS) resource record bodies and the pieces of the DNS wire format
//! that they are made of: fixed-size fields, big-endian integers and domain
//! names with suffix compression.
use vstd::prelude::*;

pub mod a;
pub mod aaaa;
pub mod cname;
pub mod compression;
pub mod name;
pub mod ns;
pub mod packer;
pub mod ptr;
pub mod srv;

verus! {

/// Why a DNS message or a part of it was refused.
#[derive(Debug, Clone, Copy, PartialEq, Eq, Structural)]
pub enum Error {
    /// Fewer bytes are left than a fixed-size field takes.
    ErrBaseLen,
    /// A length runs past the end of the message, or a name is too long.
    ErrCalcLen,
    /// A label of a name is longer than 63 bytes.
    ErrSegTooLong,
    /// A name has an empty label.
    ErrZeroSegLen,
    /// A name does not end with a dot.
    ErrNonCanonicalName,
    /// A name follows more than ten compression pointers.
    ErrTooManyPtr,
    /// A label starts with one of the reserved prefixes 0x40 and 0x80.
    ErrReserved,
    /// A compression pointer is cut off by the end of the message.
    ErrInvalidPtr,
    /// A name that must not be compressed holds a compression pointer.
    ErrCompressedSrv,
    /// A label of a name is not UTF-8.
    ErrUtf8,
}

/// The type of a DNS resource record.
#[derive(Debug, Clone, Copy, PartialEq, Eq, Structural)]
pub enum DnsType {
    A,
    Ns,
    Cname,
    Soa,
    Ptr,
    Mx,
    Txt,
    Aaaa,
    Srv,
    Opt,
    Wks,
    Hinfo,
    Minfo,
    Axfr,
    All,
    Unsupported,
}

} // verus!
