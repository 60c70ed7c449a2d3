//! VM identifiers: 128-bit universally unique numbers, and the names that are
//! derived from them.

use crate::text::{hex_pair, push_hex_pair};
use vstd::prelude::*;
use vstd::string::*;

verus! {

/// The identifier of one VM: the 128-bit number of a UUID, most significant
/// byte first.
#[derive(Clone, Copy, Debug, PartialEq, Eq, Hash, Structural)]
pub struct VmId {
    pub value: u128,
}

/// Whether `value` has the form of an identifier that was drawn at random:
/// its version, the bits 76 to 79, is 4, and its variant, the bits 62 and
/// 63, is binary 10. In bytes: the high half of byte 6 is 4, and byte 8
/// begins with the bits 1 and 0.
pub open spec fn random_form(value: u128) -> bool {
    (value >> 76u128) & 0xf == 4 && (value >> 62u128) & 0x3 == 2
}

/// `uuid::Uuid::new_v4`, handed back as the number `Uuid::as_u128` gives for
/// it. The identifier is drawn at random: all that is claimed of it is what
/// `new_v4` sets in every identifier, the version 4 and the variant 10.
#[verifier::external_body]
fn random_uuid_number() -> (value: u128)
    ensures
        random_form(value),
{
    uuid::Uuid::new_v4().as_u128()
}

impl VmId {
    /// Byte `i` of the identifier, counted from the most significant one.
    pub open spec fn byte(self, i: int) -> u8 {
        ((self.value >> ((120 - 8 * i) as u128)) & 0xff) as u8
    }

    /// The hexadecimal digits of the bytes `from..to`.
    pub open spec fn hex_run(self, from: int, to: int) -> Seq<char>
        decreases to - from,
    {
        if from >= to {
            Seq::empty()
        } else {
            self.hex_run(from, to - 1) + hex_pair(self.byte(to - 1))
        }
    }

    /// The identifier in its hyphenated form: 32 lower-case hexadecimal
    /// digits in groups of 8, 4, 4, 4 and 12.
    pub open spec fn text(self) -> Seq<char> {
        self.hex_run(0, 4) + seq!['-'] + self.hex_run(4, 6) + seq!['-'] + self.hex_run(6, 8)
            + seq!['-'] + self.hex_run(8, 10) + seq!['-'] + self.hex_run(10, 16)
    }

    /// The MAC address of the VM's network interface: `AA:FC:` and the first
    /// four bytes of the identifier, in lower-case hexadecimal.
    pub open spec fn mac_text(self) -> Seq<char> {
        "AA:FC:"@ + hex_pair(self.byte(0)) + seq![':'] + hex_pair(self.byte(1)) + seq![':']
            + hex_pair(self.byte(2)) + seq![':'] + hex_pair(self.byte(3))
    }

    /// The name of the VM's network namespace: `fc-` and the identifier.
    pub open spec fn namespace_text(self) -> Seq<char> {
        "fc-"@ + self.text()
    }

    /// The name of the VM's tap device: `fc-tap` and the identifier.
    pub open spec fn tap_text(self) -> Seq<char> {
        "fc-tap"@ + self.text()
    }

    /// The VM's data directory: `/tmp/vm/` and the identifier.
    pub open spec fn directory_text(self) -> Seq<char> {
        "/tmp/vm/"@ + self.text()
    }

    /// The identifier with the number `value`.
    pub fn from_u128(value: u128) -> (id: VmId)
        ensures
            id.value == value,
    {
        VmId { value }
    }

    /// The identifier's number.
    pub fn as_u128(&self) -> (value: u128)
        ensures
            value == self.value,
    {
        self.value
    }

    /// A new identifier, drawn at random. Whatever is drawn, it has the form
    /// of a random identifier.
    pub fn random() -> (id: VmId)
        ensures
            random_form(id.value),
    {
        VmId { value: random_uuid_number() }
    }

    /// Byte `i` of the identifier, counted from the most significant one.
    pub fn byte_at(&self, i: usize) -> (b: u8)
        requires
            i < 16,
        ensures
            b == self.byte(i as int),
    {
        let value: u128 = self.value;
        let shift: u128 = (120 - 8 * i) as u128;
        let low: u128 = (value >> shift) & 0xff;
        assert(low < 256) by (bit_vector)
            requires
                low == (value >> shift) & 0xff,
        ;
        low as u8
    }

    /// Appends the hexadecimal digits of the bytes `from..to` to `out`.
    fn push_hex_run(&self, out: &mut String, from: usize, to: usize)
        requires
            from <= to <= 16,
        ensures
            final(out)@ == old(out)@ + self.hex_run(from as int, to as int),
    {
        let mut i: usize = from;
        assert(out@ + self.hex_run(from as int, from as int) =~= out@);
        while i < to
            invariant
                from <= i <= to <= 16,
                out@ == old(out)@ + self.hex_run(from as int, i as int),
            decreases to - i,
        {
            let b = self.byte_at(i);
            assert(old(out)@ + self.hex_run(from as int, i + 1) =~= out@ + hex_pair(b));
            push_hex_pair(out, b);
            i = i + 1;
        }
    }

    /// The identifier in its hyphenated form.
    pub fn to_text(&self) -> (out: String)
        ensures
            out@ == self.text(),
    {
        let mut out = String::new();
        self.push_text(&mut out);
        assert(out@ =~= self.text());
        out
    }

    /// Appends the hyphenated form of the identifier to `out`.
    pub fn push_text(&self, out: &mut String)
        ensures
            final(out)@ == old(out)@ + self.text(),
    {
        proof {
            reveal_strlit("-");
            assert("-"@ =~= seq!['-']);
        }
        self.push_hex_run(out, 0, 4);
        out.append("-");
        self.push_hex_run(out, 4, 6);
        out.append("-");
        self.push_hex_run(out, 6, 8);
        out.append("-");
        self.push_hex_run(out, 8, 10);
        out.append("-");
        self.push_hex_run(out, 10, 16);
        assert(out@ =~= old(out)@ + self.text());
    }

    /// The MAC address of the VM's network interface.
    pub fn guest_mac(&self) -> (out: String)
        ensures
            out@ == self.mac_text(),
    {
        proof {
            reveal_strlit(":");
            assert(":"@ =~= seq![':']);
        }
        let mut out = String::from_str("AA:FC:");
        push_hex_pair(&mut out, self.byte_at(0));
        out.append(":");
        push_hex_pair(&mut out, self.byte_at(1));
        out.append(":");
        push_hex_pair(&mut out, self.byte_at(2));
        out.append(":");
        push_hex_pair(&mut out, self.byte_at(3));
        assert(out@ =~= self.mac_text());
        out
    }

    /// The name of the VM's network namespace.
    pub fn namespace_name(&self) -> (out: String)
        ensures
            out@ == self.namespace_text(),
    {
        let mut out = String::from_str("fc-");
        self.push_text(&mut out);
        out
    }

    /// The name of the VM's tap device.
    pub fn tap_name(&self) -> (out: String)
        ensures
            out@ == self.tap_text(),
    {
        let mut out = String::from_str("fc-tap");
        self.push_text(&mut out);
        out
    }

    /// The VM's data directory.
    pub fn data_directory(&self) -> (out: String)
        ensures
            out@ == self.directory_text(),
    {
        let mut out = String::from_str("/tmp/vm/");
        self.push_text(&mut out);
        out
    }
}

} // verus!
