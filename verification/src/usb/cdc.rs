//! USB CDC ACM (Serial) buffers
//!
//! Line assembly for received CAT traffic and a bounded buffer for replies,
//! plus the line coding and descriptor values of the virtual serial port.

use vstd::prelude::*;
use crate::config::{CAT_BUFFER_SIZE, USB_PID, USB_VID};
use crate::protocol::{command_buffer_new, command_buffer_push, command_bytes};

verus! {

/// Whether `b` ends a received line: line feed, carriage return, or the CAT
/// command terminator `;`.
pub open spec fn is_line_end(b: u8) -> bool {
    b == 10u8 || b == 13u8 || b == 59u8
}

/// Whether `b` is a line feed or carriage return.
pub open spec fn is_newline(b: u8) -> bool {
    b == 10u8 || b == 13u8
}

/// Index of the first line end in `s`, or `s.len()` when there is none.
pub open spec fn first_line_end(s: Seq<u8>) -> int
    decreases s.len(),
{
    if s.len() == 0 {
        0
    } else if is_line_end(s[0]) {
        0
    } else {
        1 + first_line_end(s.drop_first())
    }
}

/// Number of line feeds and carriage returns at the start of `s`.
pub open spec fn leading_newlines(s: Seq<u8>) -> int
    decreases s.len(),
{
    if s.len() == 0 {
        0
    } else if is_newline(s[0]) {
        1 + leading_newlines(s.drop_first())
    } else {
        0
    }
}

proof fn lemma_first_line_end(s: Seq<u8>)
    ensures
        0 <= first_line_end(s) <= s.len(),
        forall|j: int| 0 <= j < first_line_end(s) ==> !is_line_end(#[trigger] s[j]),
        first_line_end(s) < s.len() ==> is_line_end(s[first_line_end(s)]),
    decreases s.len(),
{
    if s.len() > 0 && !is_line_end(s[0]) {
        lemma_first_line_end(s.drop_first());
        assert forall|j: int| 0 <= j < first_line_end(s) implies !is_line_end(#[trigger] s[j]) by {
            if j > 0 {
                assert(s[j] == s.drop_first()[j - 1]);
            }
        }
    }
}

proof fn lemma_first_line_end_unique(s: Seq<u8>, k: int)
    requires
        0 <= k <= s.len(),
        forall|j: int| 0 <= j < k ==> !is_line_end(#[trigger] s[j]),
        k < s.len() ==> is_line_end(s[k]),
    ensures
        first_line_end(s) == k,
    decreases s.len(),
{
    if s.len() > 0 && k > 0 {
        assert(!is_line_end(s[0]));
        assert forall|j: int| 0 <= j < k - 1 implies !is_line_end(#[trigger] s.drop_first()[j]) by {
            assert(s.drop_first()[j] == s[j + 1]);
        }
        lemma_first_line_end_unique(s.drop_first(), k - 1);
    }
}

proof fn lemma_leading_newlines_unique(s: Seq<u8>, k: int)
    requires
        0 <= k <= s.len(),
        forall|j: int| 0 <= j < k ==> is_newline(#[trigger] s[j]),
        k < s.len() ==> !is_newline(s[k]),
    ensures
        leading_newlines(s) == k,
    decreases s.len(),
{
    if s.len() > 0 && k > 0 {
        assert(is_newline(s[0]));
        assert forall|j: int| 0 <= j < k - 1 implies is_newline(#[trigger] s.drop_first()[j]) by {
            assert(s.drop_first()[j] == s[j + 1]);
        }
        lemma_leading_newlines_unique(s.drop_first(), k - 1);
    }
}

/// CDC read buffer holding up to `N` received bytes
pub struct CdcReadBuffer<const N: usize> {
    /// Bytes received since the last compaction
    data: Vec<u8>,
    /// Position of the first unread byte in `data`
    read_pos: usize,
}

impl<const N: usize> CdcReadBuffer<N> {
    /// The bytes held, read or not, since the last compaction.
    pub closed spec fn spec_data(&self) -> Seq<u8> {
        self.data@
    }

    /// Position of the first unread byte.
    pub closed spec fn spec_read_pos(&self) -> int {
        self.read_pos as int
    }

    /// The bytes not yet read.
    pub open spec fn pending(&self) -> Seq<u8> {
        self.spec_data().subrange(self.spec_read_pos(), self.spec_data().len() as int)
    }

    /// Well-formedness: at most `N` bytes, and the read position inside them.
    pub open spec fn wf(&self) -> bool {
        self.spec_data().len() <= N && 0 <= self.spec_read_pos() <= self.spec_data().len()
    }

    /// Create a new read buffer
    pub fn new() -> (r: Self)
        ensures
            r.wf(),
            r.spec_data() == Seq::<u8>::empty(),
            r.spec_read_pos() == 0,
    {
        Self { data: Vec::new(), read_pos: 0 }
    }

    /// Position of the first unread byte
    pub fn read_pos(&self) -> (r: usize)
        ensures
            r == self.spec_read_pos(),
    {
        self.read_pos
    }

    /// Push data into buffer; returns how many bytes fitted
    pub fn push(&mut self, data: &[u8]) -> (written: usize)
        requires
            old(self).wf(),
        ensures
            final(self).wf(),
            written == vstd::math::min(data@.len() as int, N - old(self).spec_data().len()),
            final(self).spec_data() == old(self).spec_data() + data@.take(written as int),
            final(self).spec_read_pos() == old(self).spec_read_pos(),
    {
        let mut written: usize = 0;
        let mut i: usize = 0;
        while i < data.len()
            invariant
                i <= data.len(),
                self.data@.len() <= N,
                self.read_pos == old(self).read_pos,
                old(self).read_pos <= old(self).data@.len(),
                written == vstd::math::min(i as int, N - old(self).data@.len()),
                self.data@ == old(self).data@ + data@.take(written as int),
            decreases data.len() - i,
        {
            if self.data.len() < N {
                self.data.push(data[i]);
                assert(data@.take(written + 1) == data@.take(written as int).push(data@[written as int]));
                written = written + 1;
            }
            i = i + 1;
        }
        written
    }

    /// Read a line, up to a line feed, carriage return or `;`. The
    /// terminator is dropped, as are any line feeds and carriage returns
    /// right after it; the buffer is compacted once half of it is read. The
    /// line holds at most the first 64 bytes (`CAT_BUFFER_SIZE`).
    pub fn read_line(&mut self) -> (line: Option<heapless::Vec<u8, CAT_BUFFER_SIZE>>)
        requires
            old(self).wf(),
        ensures
            final(self).wf(),
            ({
                let p = old(self).pending();
                let k = first_line_end(p);
                if k == p.len() {
                    line is None && *final(self) == *old(self)
                } else {
                    let rest = old(self).spec_read_pos() + k + 1;
                    let rp = rest + leading_newlines(
                        old(self).spec_data().subrange(rest, old(self).spec_data().len() as int),
                    );
                    &&& line is Some
                    &&& command_bytes(line->0) == p.take(vstd::math::min(k, CAT_BUFFER_SIZE as int))
                    &&& if rp >= N / 2 {
                        final(self).spec_data() == old(self).spec_data().subrange(rp, old(self).spec_data().len() as int)
                            && final(self).spec_read_pos() == 0
                    } else {
                        final(self).spec_data() == old(self).spec_data() && final(self).spec_read_pos() == rp
                    }
                }
            }),
    {
        let ghost d = self.data@;
        let ghost p = self.pending();
        let len = self.data.len();
        let start = self.read_pos;
        let mut end = start;
        while end < len && !(self.data[end] == 10 || self.data[end] == 13 || self.data[end] == 59)
            invariant
                len == self.data@.len(),
                self.data@ == d,
                start == self.read_pos,
                start <= end <= len,
                p == d.subrange(start as int, len as int),
                forall|j: int| start <= j < end ==> !is_line_end(#[trigger] d[j]),
            decreases len - end,
        {
            end = end + 1;
        }
        proof {
            assert forall|j: int| 0 <= j < end - start implies !is_line_end(#[trigger] p[j]) by {
                assert(p[j] == d[j + start]);
            }
            if end < len {
                assert(p[end - start] == d[end as int]);
            }
            lemma_first_line_end_unique(p, end - start);
        }
        if end == len {
            return None;
        }
        let mut line: heapless::Vec<u8, CAT_BUFFER_SIZE> = command_buffer_new();
        let mut i = start;
        while i < end
            invariant
                start <= i <= end,
                end < len,
                len == self.data@.len(),
                self.data@ == d,
                command_bytes(line) == d.subrange(
                    start as int,
                    start + vstd::math::min(i - start, CAT_BUFFER_SIZE as int),
                ),
            decreases end - i,
        {
            // Bytes past the line's capacity are dropped
            let _ = command_buffer_push(&mut line, self.data[i]);
            assert(d.subrange(start as int, i + 1) == d.subrange(start as int, i as int).push(d[i as int]));
            i = i + 1;
        }
        assert(command_bytes(line) == p.take(vstd::math::min(end - start, CAT_BUFFER_SIZE as int)));
        let rest = end + 1;
        let mut rp = rest;
        while rp < len && (self.data[rp] == 10 || self.data[rp] == 13)
            invariant
                rest <= rp <= len,
                len == self.data@.len(),
                self.data@ == d,
                forall|j: int| rest <= j < rp ==> is_newline(#[trigger] d[j]),
            decreases len - rp,
        {
            rp = rp + 1;
        }
        proof {
            let tail = d.subrange(rest as int, len as int);
            assert forall|j: int| 0 <= j < rp - rest implies is_newline(#[trigger] tail[j]) by {
                assert(tail[j] == d[j + rest]);
            }
            if rp < len {
                assert(tail[rp - rest] == d[rp as int]);
            }
            lemma_leading_newlines_unique(tail, rp - rest);
        }
        if rp >= N / 2 {
            let mut kept: Vec<u8> = Vec::new();
            let mut j = rp;
            while j < len
                invariant
                    rp <= j <= len,
                    len == self.data@.len(),
                    self.data@ == d,
                    kept@ == d.subrange(rp as int, j as int),
                decreases len - j,
            {
                kept.push(self.data[j]);
                assert(d.subrange(rp as int, j + 1) == d.subrange(rp as int, j as int).push(d[j as int]));
                j = j + 1;
            }
            self.data = kept;
            self.read_pos = 0;
        } else {
            self.read_pos = rp;
        }
        Some(line)
    }

    /// Clear the buffer
    pub fn clear(&mut self)
        ensures
            final(self).wf(),
            final(self).spec_data() == Seq::<u8>::empty(),
            final(self).spec_read_pos() == 0,
    {
        self.data = Vec::new();
        self.read_pos = 0;
    }

    /// Get available bytes
    pub fn available(&self) -> (r: usize)
        requires
            self.wf(),
        ensures
            r == self.pending().len(),
    {
        self.data.len() - self.read_pos
    }

    /// Get free space
    pub fn free(&self) -> (r: usize)
        requires
            self.wf(),
        ensures
            r == N - self.spec_data().len(),
    {
        N - self.data.len()
    }
}

/// CDC write buffer holding up to `N` bytes
pub struct CdcWriteBuffer<const N: usize> {
    data: Vec<u8>,
}

impl<const N: usize> CdcWriteBuffer<N> {
    /// The bytes written since the last clear.
    pub closed spec fn spec_bytes(&self) -> Seq<u8> {
        self.data@
    }

    /// Well-formedness: at most `N` bytes.
    pub open spec fn wf(&self) -> bool {
        self.spec_bytes().len() <= N
    }

    /// Create a new write buffer
    pub fn new() -> (r: Self)
        ensures
            r.wf(),
            r.spec_bytes() == Seq::<u8>::empty(),
    {
        Self { data: Vec::new() }
    }

    /// Write data to buffer; returns how many bytes fitted
    pub fn write(&mut self, data: &[u8]) -> (written: usize)
        requires
            old(self).wf(),
        ensures
            final(self).wf(),
            written == vstd::math::min(data@.len() as int, N - old(self).spec_bytes().len()),
            final(self).spec_bytes() == old(self).spec_bytes() + data@.take(written as int),
    {
        let space = N - self.data.len();
        let to_write = if data.len() < space { data.len() } else { space };
        let mut i: usize = 0;
        while i < to_write
            invariant
                i <= to_write <= data.len(),
                to_write <= space,
                space == N - old(self).data@.len(),
                self.data@ == old(self).data@ + data@.take(i as int),
            decreases to_write - i,
        {
            self.data.push(data[i]);
            assert(data@.take(i + 1) == data@.take(i as int).push(data@[i as int]));
            i = i + 1;
        }
        to_write
    }

    /// Write a string
    pub fn write_str(&mut self, s: &str) -> (written: usize)
        requires
            old(self).wf(),
        ensures
            final(self).wf(),
            written == vstd::math::min(vstd::string::StringSliceAdditionalSpecFns::spec_bytes(s).len() as int, N - old(self).spec_bytes().len()),
            final(self).spec_bytes() == old(self).spec_bytes() + vstd::string::StringSliceAdditionalSpecFns::spec_bytes(s).take(written as int),
    {
        self.write(s.as_bytes())
    }

    /// Write with CR LF; returns the count of data bytes written plus two,
    /// whether or not the line ending fitted
    pub fn writeln(&mut self, data: &[u8]) -> (r: usize)
        requires
            old(self).wf(),
            N <= usize::MAX - 2,
        ensures
            final(self).wf(),
            ({
                let w = vstd::math::min(data@.len() as int, N - old(self).spec_bytes().len());
                let body = old(self).spec_bytes() + data@.take(w);
                &&& r == w + 2
                &&& final(self).spec_bytes() == (body + seq![13u8, 10u8]).take(
                    vstd::math::min(body.len() as int + 2, N as int),
                )
            }),
    {
        let written = self.write(data);
        let ghost body = self.data@;
        if self.data.len() < N {
            self.data.push(13);
        }
        if self.data.len() < N {
            self.data.push(10);
        }
        assert(self.data@ == (body + seq![13u8, 10u8]).take(vstd::math::min(body.len() as int + 2, N as int)));
        written + 2
    }

    /// Get buffer contents
    pub fn as_bytes(&self) -> (r: &[u8])
        ensures
            r@ == self.spec_bytes(),
    {
        self.data.as_slice()
    }

    /// Clear the buffer
    pub fn clear(&mut self)
        ensures
            final(self).wf(),
            final(self).spec_bytes() == Seq::<u8>::empty(),
    {
        self.data = Vec::new();
    }

    /// Get used length
    pub fn len(&self) -> (r: usize)
        ensures
            r == self.spec_bytes().len(),
    {
        self.data.len()
    }

    /// Check if empty
    pub fn is_empty(&self) -> (r: bool)
        ensures
            r <==> self.spec_bytes().len() == 0,
    {
        self.data.len() == 0
    }
}

/// Stop bits configuration
#[derive(Clone, Copy, Debug, PartialEq, Eq, Structural, Default)]
pub enum StopBits {
    /// One stop bit
    #[default]
    One,
    /// One and a half stop bits
    OnePointFive,
    /// Two stop bits
    Two,
}

/// Parity configuration
#[derive(Clone, Copy, Debug, PartialEq, Eq, Structural, Default)]
pub enum Parity {
    /// No parity
    #[default]
    NoParity,
    /// Odd parity
    Odd,
    /// Even parity
    Even,
    /// Mark parity
    Mark,
    /// Space parity
    Space,
}

/// Line coding (baud rate, etc.)
#[derive(Clone, Copy, Debug, PartialEq, Eq, Structural)]
pub struct LineCoding {
    /// Baud rate
    pub baud_rate: u32,
    /// Data bits (5, 6, 7, 8)
    pub data_bits: u8,
    /// Stop bits (1, 1.5, 2)
    pub stop_bits: StopBits,
    /// Parity
    pub parity: Parity,
}

impl Default for LineCoding {
    /// 115200 baud, 8 data bits, one stop bit, no parity
    fn default() -> (r: Self)
        ensures
            r == (LineCoding { baud_rate: 115200, data_bits: 8, stop_bits: StopBits::One, parity: Parity::NoParity }),
    {
        Self { baud_rate: 115200, data_bits: 8, stop_bits: StopBits::One, parity: Parity::NoParity }
    }
}

/// DTR/RTS control signals
#[derive(Clone, Copy, Debug, PartialEq, Eq, Structural, Default)]
pub struct ControlSignals {
    /// Data Terminal Ready
    pub dtr: bool,
    /// Request To Send
    pub rts: bool,
}

impl ControlSignals {
    /// Check if host is connected (DTR set)
    pub fn connected(&self) -> (r: bool)
        ensures
            r == self.dtr,
    {
        self.dtr
    }
}

/// USB device descriptor strings
pub struct UsbStrings {
    /// Manufacturer name
    pub manufacturer: &'static str,
    /// Product name
    pub product: &'static str,
    /// Serial number
    pub serial: &'static str,
}

impl Default for UsbStrings {
    fn default() -> (r: Self)
        ensures
            r.manufacturer@ == "SDR Project"@,
            r.product@ == "SDR Transceiver"@,
            r.serial@ == "0001"@,
    {
        Self { manufacturer: "SDR Project", product: "SDR Transceiver", serial: "0001" }
    }
}

/// USB device info for descriptor
#[derive(Clone, Copy, Debug, PartialEq, Eq, Structural)]
pub struct UsbDeviceInfo {
    /// Vendor ID
    pub vid: u16,
    /// Product ID
    pub pid: u16,
    /// Device release number
    pub device_release: u16,
}

impl Default for UsbDeviceInfo {
    /// The project's vendor and product IDs, release 1.00
    fn default() -> (r: Self)
        ensures
            r == (UsbDeviceInfo { vid: USB_VID, pid: USB_PID, device_release: 0x0100 }),
    {
        Self { vid: USB_VID, pid: USB_PID, device_release: 0x0100 }
    }
}

} // verus!
