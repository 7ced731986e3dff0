//! A stable machine identifier made from hardware characteristics, hashed for privacy.
use vstd::prelude::*;
use vstd::string::StringSliceAdditionalSpecFns;
use sha2::Digest;
use crate::text::{is_prefix, join, join_strings, push_char, starts_with, strs};

verus! {

/// The SHA-256 digest of a byte string.
pub uninterp spec fn sha256_of(bytes: Seq<u8>) -> Seq<u8>;

/// The SHA-256 digest of `bytes` (sha2's `Sha256::digest`).
///
/// Trusted: the digest is named [`sha256_of`] of the bytes; sha2 documents it as
/// 32 bytes long.
#[verifier::external_body]
fn sha256_digest(bytes: &[u8]) -> (res: Vec<u8>)
    ensures
        res@ == sha256_of(bytes@),
        res@.len() == 32,
{
    sha2::Sha256::digest(bytes).to_vec()
}

/// The lower-case hexadecimal digit for `d` (`0 <= d < 16`).
pub open spec fn hex_digit(d: nat) -> char {
    if d < 10 {
        ((48 + d) as u8) as char
    } else {
        ((87 + d) as u8) as char
    }
}

/// Bytes in lower-case hexadecimal, two digits per byte (what `{:x}` prints for a
/// digest).
pub open spec fn lower_hex(bytes: Seq<u8>) -> Seq<char>
    decreases bytes.len(),
{
    if bytes.len() == 0 {
        Seq::empty()
    } else {
        lower_hex(bytes.drop_last()) + seq![
            hex_digit((bytes.last() / 16) as nat),
            hex_digit((bytes.last() % 16) as nat),
        ]
    }
}

/// The lower-case hexadecimal digit for `d`.
fn hex_char(d: u8) -> (res: char)
    requires
        d < 16,
    ensures
        res == hex_digit(d as nat),
{
    if d < 10 {
        (48u8 + d) as char
    } else {
        (87u8 + d) as char
    }
}

/// Bytes in lower-case hexadecimal.
fn to_lower_hex(bytes: &[u8]) -> (res: String)
    ensures
        res@ == lower_hex(bytes@),
        res@.len() == 2 * bytes@.len(),
{
    let mut res = String::new();
    let mut i: usize = 0;
    while i < bytes.len()
        invariant
            i <= bytes.len(),
            res@ == lower_hex(bytes@.take(i as int)),
            res@.len() == 2 * i,
        decreases bytes.len() - i,
    {
        let b = bytes[i];
        push_char(&mut res, hex_char(b / 16));
        push_char(&mut res, hex_char(b % 16));
        i = i + 1;
        assert(bytes@.take(i as int).drop_last() =~= bytes@.take(i - 1));
        assert(res@ =~= lower_hex(bytes@.take(i as int)));
    }
    assert(bytes@.take(i as int) =~= bytes@);
    res
}

/// Hashes an identifier with SHA-256: the lower-case hexadecimal of the digest of its
/// UTF-8 bytes, 64 characters long.
pub fn hash_identifier(input: &str) -> (res: String)
    ensures
        res@ == lower_hex(sha256_of(input.spec_bytes())),
        res@.len() == 64,
{
    let digest = sha256_digest(input.as_bytes());
    to_lower_hex(digest.as_slice())
}

/// The MAC address prefixes of virtual adapters: VMware, Parallels, VirtualBox and
/// Hyper-V.
pub open spec fn virtual_mac_prefixes() -> Seq<Seq<char>> {
    seq!["00:05:69"@, "00:0C:29"@, "00:50:56"@, "00:1C:42"@, "08:00:27"@, "00:15:5D"@]
}

/// Whether a MAC address belongs to a virtual adapter: it starts with one of the
/// [`virtual_mac_prefixes`] (compared exactly, so in upper case).
pub fn is_virtual_mac(mac: &str) -> (res: bool)
    ensures
        res == exists|i: int|
            0 <= i < virtual_mac_prefixes().len() && is_prefix(
                #[trigger] virtual_mac_prefixes()[i],
                mac@,
            ),
{
    let prefixes: Vec<&str> = vec!["00:05:69", "00:0C:29", "00:50:56", "00:1C:42", "08:00:27", "00:15:5D"];
    let ghost names = virtual_mac_prefixes();
    assert(prefixes@.map_values(|p: &str| p@) =~= names);
    let mut k: usize = 0;
    while k < prefixes.len()
        invariant
            k <= prefixes.len(),
            prefixes@.map_values(|p: &str| p@) == names,
            names == virtual_mac_prefixes(),
            forall|m: int| 0 <= m < k ==> !is_prefix(#[trigger] names[m], mac@),
        decreases prefixes.len() - k,
    {
        assert(names[k as int] == prefixes@[k as int]@);
        if starts_with(mac, prefixes[k]) {
            return true;
        }
        k = k + 1;
    }
    false
}

/// The MAC address used for identification: the primary adapter's when it is not a
/// virtual one, else the `Ethernet` adapter's, if any.
pub fn choose_mac_address(primary: Option<String>, ethernet: Option<String>) -> (res: Option<
    String,
>)
    ensures
        match primary {
            Some(p) => {
                let virt = exists|i: int|
                    0 <= i < virtual_mac_prefixes().len() && is_prefix(
                        #[trigger] virtual_mac_prefixes()[i],
                        p@,
                    );
                if !virt {
                    res matches Some(r) && r@ == p@
                } else {
                    res == ethernet
                }
            },
            None => res == ethernet,
        },
{
    match primary {
        Some(p) => {
            if !is_virtual_mac(p.as_str()) {
                Some(p)
            } else {
                ethernet
            }
        },
        None => ethernet,
    }
}

/// The CPU identification: the first processor's brand, when it is not empty.
pub fn cpu_identifier(first_brand: Option<&str>) -> (res: Option<String>)
    ensures
        match first_brand {
            Some(b) => if b@.len() > 0 {
                res matches Some(r) && r@ == b@
            } else {
                res is None
            },
            None => res is None,
        },
{
    match first_brand {
        Some(b) => {
            let cs = crate::text::chars_of(b);
            if cs.len() > 0 {
                Some(crate::text::owned(b))
            } else {
                None
            }
        },
        None => None,
    }
}

/// The text of an optional `String`.
pub open spec fn opt_text(s: Option<String>) -> Option<Seq<char>> {
    match s {
        Some(t) => Some(t@),
        None => None,
    }
}

/// The hardware components of an identifier, in order: the MAC address, then the CPU
/// information, each when available.
pub open spec fn id_components(mac: Option<Seq<char>>, cpu: Option<Seq<char>>) -> Seq<Seq<char>> {
    (if mac is Some {
        seq![mac->Some_0]
    } else {
        Seq::empty()
    }) + (if cpu is Some {
        seq![cpu->Some_0]
    } else {
        Seq::empty()
    })
}

/// Generates the machine identifier from the hardware components found: their texts
/// joined with `|` and hashed (see [`hash_identifier`]); when neither the MAC address
/// nor the CPU information is available, a fresh random UUID instead.
pub fn machine_id_from(mac: Option<String>, cpu: Option<String>) -> (res: String)
    ensures
        mac is None && cpu is None ==> crate::system::is_uuid_v4_text(res@),
        !(mac is None && cpu is None) ==> res@.len() == 64,
        !(mac is None && cpu is None) ==> res@ == lower_hex(
            sha256_of(
                crate::text::utf8_bytes(
                    join(id_components(opt_text(mac), opt_text(cpu)), "|"@),
                ),
            ),
        ),
{
    let ghost mv = opt_text(mac);
    let ghost cv = opt_text(cpu);
    let mut components: Vec<String> = Vec::new();
    match mac {
        Some(m) => {
            let ghost before = components@;
            components.push(m);
            proof {
                crate::text::lemma_strs_push(before, m);
            }
        },
        None => {},
    }
    match cpu {
        Some(c) => {
            let ghost before = components@;
            components.push(c);
            proof {
                crate::text::lemma_strs_push(before, c);
            }
        },
        None => {},
    }
    assert(strs(components@) =~= id_components(mv, cv));
    if components.len() == 0 {
        return crate::system::new_uuid_v4();
    }
    let combined = join_strings(components.as_slice(), "|");
    hash_identifier(combined.as_str())
}

/// The MAC addresses of virtual adapters are those that begin with one of VMware's
/// prefixes (`00:05:69`, `00:0C:29`, `00:50:56`), Parallels' (`00:1C:42`), VirtualBox's
/// (`08:00:27`) or Hyper-V's (`00:15:5D`), as written, in upper case.
pub proof fn virtual_mac_addresses(mac: Seq<char>)
    ensures
        (exists|i: int| 0 <= i < virtual_mac_prefixes().len() && is_prefix(#[trigger] virtual_mac_prefixes()[i], mac))
            <==> (is_prefix("00:05:69"@, mac) || is_prefix("00:0C:29"@, mac) || is_prefix("00:50:56"@, mac)
            || is_prefix("00:1C:42"@, mac) || is_prefix("08:00:27"@, mac) || is_prefix("00:15:5D"@, mac)),
{
    let p = virtual_mac_prefixes();
    if exists|i: int| 0 <= i < p.len() && is_prefix(#[trigger] p[i], mac) {
        let i = choose|i: int| 0 <= i < p.len() && is_prefix(#[trigger] p[i], mac);
        assert(i == 0 || i == 1 || i == 2 || i == 3 || i == 4 || i == 5);
    }
    if is_prefix("00:05:69"@, mac) { assert(is_prefix(p[0], mac)); }
    if is_prefix("00:0C:29"@, mac) { assert(is_prefix(p[1], mac)); }
    if is_prefix("00:50:56"@, mac) { assert(is_prefix(p[2], mac)); }
    if is_prefix("00:1C:42"@, mac) { assert(is_prefix(p[3], mac)); }
    if is_prefix("08:00:27"@, mac) { assert(is_prefix(p[4], mac)); }
    if is_prefix("00:15:5D"@, mac) { assert(is_prefix(p[5], mac)); }
}

} // verus!
