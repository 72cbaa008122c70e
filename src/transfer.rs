//! Transaction descriptors and the step sequences of the three blocking
//! operations.
use vstd::prelude::*;

verus! {

/// Longest transfer one phase can carry.
pub const MAX_TRANSFER: usize = 255;

/// Transfer direction.
#[derive(Debug, Clone, Copy, PartialEq, Eq, Structural)]
pub enum Direction {
    Read,
    Write,
}

/// What one START programs: 7-bit slave address, byte count, direction, and
/// whether the hardware emits STOP once the count is done.
#[derive(Debug, Clone, Copy, PartialEq, Eq, Structural)]
pub struct Descriptor {
    pub address: u8,
    pub nbytes: u8,
    pub direction: Direction,
    pub auto_stop: bool,
}

/// The value of the 10-bit slave-address field for 7-bit address `a`: the
/// address shifted past the direction bit, its top bit dropped.
pub open spec fn sadd_spec(a: u8) -> u16 {
    ((a as int % 128) * 2) as u16
}

/// Relies on cast::u16, which widens a `u8` losslessly.
#[verifier::external_body]
fn widen(x: u8) -> (r: u16)
    ensures
        r == x as u16,
{
    cast::u16(x)
}

impl Descriptor {
    /// The slave-address field this descriptor programs.
    pub fn sadd(&self) -> (r: u16)
        ensures
            r == sadd_spec(self.address),
    {
        let a: u8 = self.address;
        let low: u8 = a & 0x7f;
        assert(low == a % 128) by (bit_vector)
            requires low == a & 0x7f;
        widen(low * 2)
    }
}

/// One step of a blocking transaction, in the order it is carried out.
#[derive(Debug, Clone, Copy, PartialEq, Eq, Structural)]
pub enum Step {
    /// Wait, without a time bound, for a previous START sequence to finish.
    WaitStart,
    /// Program the descriptor and request START in one register write.
    Start(Descriptor),
    /// Wait for the transmit register to empty, then put the byte in it.
    Send(u8),
    /// Wait for the write phase to complete (no STOP is emitted).
    AwaitComplete,
    /// Wait for a received byte and take it.
    Receive,
}

pub open spec fn sends(bytes: Seq<u8>) -> Seq<Step> {
    bytes.map_values(|b: u8| Step::Send(b))
}

pub open spec fn receives(n: nat) -> Seq<Step> {
    Seq::new(n, |i: int| Step::Receive)
}

pub open spec fn valid_len(n: int) -> bool {
    1 <= n <= MAX_TRANSFER
}

pub open spec fn descriptor(address: u8, n: int, direction: Direction, auto_stop: bool) -> Descriptor {
    Descriptor { address, nbytes: n as u8, direction, auto_stop }
}

/// Write: one START with automatic STOP, then every byte in order.
pub open spec fn write_script(address: u8, bytes: Seq<u8>) -> Seq<Step> {
    seq![Step::WaitStart, Step::Start(descriptor(address, bytes.len() as int, Direction::Write, true))]
        + sends(bytes)
}

/// Read: one START with automatic STOP, then `n` received bytes.
pub open spec fn read_script(address: u8, n: nat) -> Seq<Step> {
    seq![Step::WaitStart, Step::Start(descriptor(address, n as int, Direction::Read, true))]
        + receives(n)
}

/// Write then read: the write phase without STOP, a wait for it to
/// complete, a repeated START with automatic STOP, then the read phase.
pub open spec fn write_read_script(address: u8, bytes: Seq<u8>, n: nat) -> Seq<Step> {
    seq![Step::WaitStart, Step::Start(descriptor(address, bytes.len() as int, Direction::Write, false))]
        + sends(bytes) + seq![Step::AwaitComplete, Step::Start(descriptor(address, n as int, Direction::Read, true))]
        + receives(n)
}

fn push_sends(v: &mut Vec<Step>, bytes: &[u8])
    ensures
        final(v)@ == old(v)@ + sends(bytes@),
{
    let mut i: usize = 0;
    while i < bytes.len()
        invariant
            i <= bytes@.len(),
            v@ == old(v)@ + sends(bytes@.subrange(0, i as int)),
        decreases bytes@.len() - i,
    {
        v.push(Step::Send(bytes[i]));
        i = i + 1;
        assert(sends(bytes@.subrange(0, i as int)) =~= sends(bytes@.subrange(0, i - 1 as int)).push(Step::Send(bytes@[i - 1])));
    }
    assert(bytes@.subrange(0, i as int) =~= bytes@);
}

fn push_receives(v: &mut Vec<Step>, n: usize)
    ensures
        final(v)@ == old(v)@ + receives(n as nat),
{
    let mut i: usize = 0;
    while i < n
        invariant
            i <= n,
            v@ == old(v)@ + receives(i as nat),
        decreases n - i,
    {
        v.push(Step::Receive);
        i = i + 1;
        assert(receives(i as nat) =~= receives((i - 1) as nat).push(Step::Receive));
    }
}

/// Whether `n` bytes fit in one transfer phase (1 to 255).
pub fn transfer_len_ok(n: usize) -> (r: bool)
    ensures
        r == valid_len(n as int),
{
    1 <= n && n <= MAX_TRANSFER
}

/// The steps of writing `bytes` to `address`.
pub fn write_steps(address: u8, bytes: &[u8]) -> (r: Vec<Step>)
    requires
        valid_len(bytes@.len() as int),
    ensures
        r@ == write_script(address, bytes@),
{
    let mut v: Vec<Step> = Vec::new();
    v.push(Step::WaitStart);
    v.push(Step::Start(Descriptor {
        address,
        nbytes: bytes.len() as u8,
        direction: Direction::Write,
        auto_stop: true,
    }));
    push_sends(&mut v, bytes);
    v
}

/// The steps of reading `n` bytes from `address`.
pub fn read_steps(address: u8, n: usize) -> (r: Vec<Step>)
    requires
        valid_len(n as int),
    ensures
        r@ == read_script(address, n as nat),
{
    let mut v: Vec<Step> = Vec::new();
    v.push(Step::WaitStart);
    v.push(Step::Start(Descriptor {
        address,
        nbytes: n as u8,
        direction: Direction::Read,
        auto_stop: true,
    }));
    push_receives(&mut v, n);
    v
}

/// The steps of writing `bytes` to `address` and then, under a repeated
/// START, reading `n` bytes from it.
pub fn write_read_steps(address: u8, bytes: &[u8], n: usize) -> (r: Vec<Step>)
    requires
        valid_len(bytes@.len() as int),
        valid_len(n as int),
    ensures
        r@ == write_read_script(address, bytes@, n as nat),
{
    let mut v: Vec<Step> = Vec::new();
    v.push(Step::WaitStart);
    v.push(Step::Start(Descriptor {
        address,
        nbytes: bytes.len() as u8,
        direction: Direction::Write,
        auto_stop: false,
    }));
    push_sends(&mut v, bytes);
    v.push(Step::AwaitComplete);
    v.push(Step::Start(Descriptor {
        address,
        nbytes: n as u8,
        direction: Direction::Read,
        auto_stop: true,
    }));
    push_receives(&mut v, n);
    assert(v@ =~= write_read_script(address, bytes@, n as nat));
    v
}

/// A write-then-read is exactly: a wait for any earlier START, the write
/// phase's START, every payload byte in order, a wait for the write phase to
/// complete, a repeated START for the read phase, and every byte read. The
/// write phase asks for no STOP, so none comes between the phases; the read
/// phase asks for the automatic STOP that ends the transaction.
pub proof fn lemma_write_read_sequence(address: u8, bytes: Seq<u8>, n: nat)
    requires
        valid_len(bytes.len() as int),
        valid_len(n as int),
    ensures
        ({
            let w = write_read_script(address, bytes, n);
            let k = bytes.len() as int;
            &&& w.len() == k + n + 4
            &&& w[0] == Step::WaitStart
            &&& w[1] == Step::Start(
                Descriptor { address, nbytes: k as u8, direction: Direction::Write, auto_stop: false },
            )
            &&& forall|i: int| 2 <= i < 2 + k ==> w[i] == Step::Send(bytes[i - 2])
            &&& w[2 + k] == Step::AwaitComplete
            &&& w[3 + k] == Step::Start(
                Descriptor { address, nbytes: n as u8, direction: Direction::Read, auto_stop: true },
            )
            &&& forall|i: int| 4 + k <= i < w.len() ==> w[i] == Step::Receive
            &&& forall|i: int|
                0 <= i < 3 + k ==> !(#[trigger] w[i] matches Step::Start(d) && d.auto_stop)
            &&& forall|i: int| 1 <= i < w.len() ==> w[i] != Step::WaitStart
        }),
{
    let w = write_read_script(address, bytes, n);
    let k = bytes.len() as int;
    assert forall|i: int| 0 <= i < 3 + k implies !(#[trigger] w[i] matches Step::Start(d) && d.auto_stop) by {
        if 2 <= i < 2 + k {
            assert(w[i] == Step::Send(bytes[i - 2]));
        }
    }
    assert forall|i: int| 1 <= i < w.len() implies w[i] != Step::WaitStart by {
        if 2 <= i < 2 + k {
            assert(w[i] == Step::Send(bytes[i - 2]));
        } else if 4 + k <= i {
            assert(w[i] == Step::Receive);
        }
    }
}

} // verus!
