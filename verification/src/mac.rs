//! Client-MAC discovery: reading the source address out of a captured
//! Ethernet frame, the write-once cell that the capture callback fills, and
//! the textual form of an address.

use vstd::prelude::*;
use crate::strings::chars_to_string;

verus! {

/// All six octets are zero.
pub open spec fn mac_is_zero(m: Seq<u8>) -> bool {
    forall|i: int| 0 <= i < m.len() ==> #[trigger] m[i] == 0
}

/// The individual/group bit of the first octet is clear: the address names a
/// single station, not a group.
pub open spec fn mac_is_unicast(m: Seq<u8>) -> bool {
    m.len() == 6 && m[0] & 1 == 0
}

/// An address that can stand for the bridged client: unicast and not the
/// all-zero address.
pub open spec fn mac_valid(m: Seq<u8>) -> bool {
    m.len() == 6 && mac_is_unicast(m) && !mac_is_zero(m)
}

/// Exec test for [`mac_valid`].
pub fn mac_valid_exec(m: &[u8; 6]) -> (r: bool)
    ensures
        r == mac_valid(m@),
{
    let unicast = m[0] & 1 == 0;
    let zero = m[0] == 0 && m[1] == 0 && m[2] == 0 && m[3] == 0 && m[4] == 0 && m[5] == 0;
    proof {
        if m[0] == 0 && m[1] == 0 && m[2] == 0 && m[3] == 0 && m[4] == 0 && m[5] == 0 {
            assert forall|i: int| 0 <= i < m@.len() implies #[trigger] m@[i] == 0 by {
                assert(m@[0] == 0 && m@[1] == 0 && m@[2] == 0 && m@[3] == 0 && m@[4] == 0
                    && m@[5] == 0);
            }
        }
    }
    unicast && !zero
}

/// The source-MAC field of an 802.3 frame: bytes 6 to 11.
pub open spec fn source_mac_of(frame: Seq<u8>) -> Seq<u8> {
    frame.subrange(6, 12)
}

/// Reads the source MAC out of a captured frame.
///
/// A frame shorter than its address fields cannot come out of the capture
/// path and is excluded here; the capture callback treats one as a violated
/// invariant.
pub fn frame_source_mac(frame: &Vec<u8>) -> (r: [u8; 6])
    requires
        frame@.len() >= 12,
    ensures
        r@ =~= source_mac_of(frame@),
{
    let r: [u8; 6] = [frame[6], frame[7], frame[8], frame[9], frame[10], frame[11]];
    r
}

/// The write-once cell that the temporary capture callback fills with the
/// first client address it sees. All later offers lose and leave the cell as
/// it is.
pub struct SniffCell {
    value: Option<[u8; 6]>,
}

impl View for SniffCell {
    type V = Option<Seq<u8>>;

    closed spec fn view(&self) -> Option<Seq<u8>> {
        match self.value {
            Some(m) => Some(m@),
            None => None,
        }
    }
}

impl SniffCell {
    /// An empty cell.
    pub fn new() -> (r: SniffCell)
        ensures
            r@ is None,
    {
        SniffCell { value: None }
    }

    /// Offers an address; only the first offer ever wins.
    pub fn offer(&mut self, mac: [u8; 6]) -> (won: bool)
        ensures
            old(self)@ is None ==> won && final(self)@ == Some(mac@),
            old(self)@ is Some ==> !won && final(self)@ == old(self)@,
    {
        match self.value {
            Some(_) => false,
            None => {
                self.value = Some(mac);
                true
            },
        }
    }

    /// The stored address, if one was captured.
    pub fn get(&self) -> (r: Option<[u8; 6]>)
        ensures
            match r {
                Some(m) => self@ == Some(m@),
                None => self@ is None,
            },
    {
        self.value
    }
}

/// One delivery of a captured frame to the sniffing callback: the first
/// delivery fills the cell with the frame's source MAC, every later one
/// leaves the cell untouched.
pub fn sniff_on_frame(cell: &mut SniffCell, frame: &Vec<u8>)
    requires
        frame@.len() >= 12,
    ensures
        old(cell)@ is None ==> final(cell)@ == Some(source_mac_of(frame@)),
        old(cell)@ is Some ==> final(cell)@ == old(cell)@,
{
    let mac = frame_source_mac(frame);
    let _ = cell.offer(mac);
}

/// Delivers a whole captured sequence of frames to the sniffing callback.
///
/// However many frames arrive, the cell ends holding exactly the source MAC
/// of the first frame delivered, and nothing if none was.
pub fn sniff_run(cell: &mut SniffCell, frames: &Vec<Vec<u8>>)
    requires
        old(cell)@ is None,
        forall|i: int| 0 <= i < frames@.len() ==> #[trigger] frames@[i]@.len() >= 12,
    ensures
        frames@.len() == 0 ==> final(cell)@ is None,
        frames@.len() > 0 ==> final(cell)@ == Some(source_mac_of(frames@[0]@)),
{
    let n = frames.len();
    let mut i: usize = 0;
    while i < n
        invariant
            n == frames@.len(),
            i <= n,
            forall|k: int| 0 <= k < frames@.len() ==> #[trigger] frames@[k]@.len() >= 12,
            i == 0 ==> cell@ is None,
            i > 0 ==> cell@ == Some(source_mac_of(frames@[0]@)),
        decreases n - i,
    {
        sniff_on_frame(cell, &frames[i]);
        i = i + 1;
    }
}

/// A hexadecimal digit as a character.
pub open spec fn hex_digit_char(n: int) -> char {
    if n == 0 {
        '0'
    } else if n == 1 {
        '1'
    } else if n == 2 {
        '2'
    } else if n == 3 {
        '3'
    } else if n == 4 {
        '4'
    } else if n == 5 {
        '5'
    } else if n == 6 {
        '6'
    } else if n == 7 {
        '7'
    } else if n == 8 {
        '8'
    } else if n == 9 {
        '9'
    } else if n == 10 {
        'a'
    } else if n == 11 {
        'b'
    } else if n == 12 {
        'c'
    } else if n == 13 {
        'd'
    } else if n == 14 {
        'e'
    } else if n == 15 {
        'f'
    } else {
        '?'
    }
}

/// The two hex characters of one octet.
pub open spec fn byte_hex(b: u8) -> Seq<char> {
    seq![hex_digit_char(b as int / 16), hex_digit_char(b as int % 16)]
}

/// The textual form of an address: six lower-case hex pairs joined by
/// colons, `02:aa:bb:cc:12:34` style.
pub open spec fn mac_str_seq(m: Seq<u8>) -> Seq<char> {
    byte_hex(m[0]) + seq![':'] + byte_hex(m[1]) + seq![':'] + byte_hex(m[2]) + seq![':']
        + byte_hex(m[3]) + seq![':'] + byte_hex(m[4]) + seq![':'] + byte_hex(m[5])
}

fn hex_digit(n: u8) -> (c: char)
    requires
        n < 16,
    ensures
        c == hex_digit_char(n as int),
{
    match n {
        0 => '0',
        1 => '1',
        2 => '2',
        3 => '3',
        4 => '4',
        5 => '5',
        6 => '6',
        7 => '7',
        8 => '8',
        9 => '9',
        10 => 'a',
        11 => 'b',
        12 => 'c',
        13 => 'd',
        14 => 'e',
        _ => 'f',
    }
}

fn push_byte_hex(out: &mut Vec<char>, b: u8)
    ensures
        final(out)@ == old(out)@ + byte_hex(b),
{
    out.push(hex_digit(b / 16));
    out.push(hex_digit(b % 16));
    assert(out@ =~= old(out)@ + byte_hex(b));
}

/// Formats an address as its textual hex form.
pub fn mac2str(mac: [u8; 6]) -> (r: String)
    ensures
        r@ == mac_str_seq(mac@),
{
    let mut out: Vec<char> = Vec::new();
    push_byte_hex(&mut out, mac[0]);
    out.push(':');
    push_byte_hex(&mut out, mac[1]);
    out.push(':');
    push_byte_hex(&mut out, mac[2]);
    out.push(':');
    push_byte_hex(&mut out, mac[3]);
    out.push(':');
    push_byte_hex(&mut out, mac[4]);
    out.push(':');
    push_byte_hex(&mut out, mac[5]);
    assert(out@ =~= mac_str_seq(mac@));
    chars_to_string(&out)
}

} // verus!
