use vstd::prelude::*;

verus! {

/// The tag `NOEX` that closes every failure report.
pub open spec fn report_footer() -> Seq<u8> {
    seq![78u8, 79u8, 69u8, 88u8]
}

/// The four big-endian bytes of an errno.
pub open spec fn spec_be_bytes(errno: i32) -> Seq<u8> {
    let u = errno as u32;
    seq![(u >> 24) as u8, ((u >> 16) & 0xff) as u8, ((u >> 8) & 0xff) as u8, (u & 0xff) as u8]
}

/// The errno that four big-endian bytes hold.
pub open spec fn spec_be_value(b: Seq<u8>) -> i32 {
    (((b[0] as u32) << 24) | ((b[1] as u32) << 16) | ((b[2] as u32) << 8) | (b[3] as u32)) as i32
}

/// The eight-byte message a child sends when it cannot start the image.
pub open spec fn spec_report(errno: i32) -> Seq<u8> {
    spec_be_bytes(errno) + report_footer()
}

/// What one read of the error-report channel shows the parent.
#[derive(Debug, Clone, Copy, PartialEq, Eq, Structural)]
pub enum ChannelRead {
    /// The read returned this many bytes into the buffer.
    Bytes(usize),
    /// The read was interrupted by a signal.
    Interrupted,
    /// The read failed with this errno.
    Failed(i32),
}

/// What the parent does after a read of the error-report channel.
#[derive(Debug, Clone, Copy, PartialEq, Eq, Structural)]
pub enum ChannelAction {
    /// The channel closed on exec: the child runs the image.
    Started,
    /// Read again.
    Retry,
    /// The child reported this errno: reap it, then fail the launch with it.
    ReapAndFail(i32),
    /// The channel broke its contract: reap the child, then abort.
    ReapAndAbort,
}

/// The action a read calls for: zero bytes is a start, eight bytes that end in
/// the footer a failure report, an interruption a retry, anything else a breach.
pub open spec fn spec_channel_action(read: ChannelRead, buf: Seq<u8>) -> ChannelAction {
    match read {
        ChannelRead::Bytes(n) => if n == 0 {
            ChannelAction::Started
        } else if n == 8 && buf.len() >= 8 && buf.subrange(4, 8) == report_footer() {
            ChannelAction::ReapAndFail(spec_be_value(buf.subrange(0, 4)))
        } else {
            ChannelAction::ReapAndAbort
        },
        ChannelRead::Interrupted => ChannelAction::Retry,
        ChannelRead::Failed(_) => ChannelAction::ReapAndAbort,
    }
}

/// The message a child writes to the error-report channel before it exits.
pub fn encode_report(errno: i32) -> (r: [u8; 8])
    ensures
        r@ == spec_report(errno),
{
    let u = errno as u32;
    let r = [
        (u >> 24) as u8,
        ((u >> 16) & 0xff) as u8,
        ((u >> 8) & 0xff) as u8,
        (u & 0xff) as u8,
        78u8,
        79u8,
        69u8,
        88u8,
    ];
    assert(r@ =~= spec_report(errno));
    r
}

/// Whether the last four bytes of a full buffer are the footer.
fn footer_matches(buf: &[u8]) -> (r: bool)
    requires
        buf@.len() >= 8,
    ensures
        r == (buf@.subrange(4, 8) == report_footer()),
{
    let r = buf[4] == 78u8 && buf[5] == 79u8 && buf[6] == 69u8 && buf[7] == 88u8;
    if r {
        assert(buf@.subrange(4, 8) =~= report_footer());
    } else {
        assert(buf@.subrange(4, 8) != report_footer()) by {
            if buf@.subrange(4, 8) == report_footer() {
                assert(buf@.subrange(4, 8)[0] == buf@[4]);
                assert(buf@.subrange(4, 8)[1] == buf@[5]);
                assert(buf@.subrange(4, 8)[2] == buf@[6]);
                assert(buf@.subrange(4, 8)[3] == buf@[7]);
            }
        }
    }
    r
}

/// Decides what the parent does after a read of the error-report channel into `buf`.
pub fn channel_action(read: ChannelRead, buf: &[u8]) -> (r: ChannelAction)
    ensures
        r == spec_channel_action(read, buf@),
{
    match read {
        ChannelRead::Bytes(n) => {
            if n == 0 {
                ChannelAction::Started
            } else if n == 8 && buf.len() >= 8 && footer_matches(buf) {
                let v = ((((buf[0] as u32) << 24) | ((buf[1] as u32) << 16) | ((buf[2] as u32)
                    << 8) | (buf[3] as u32)) as i32);
                assert(buf@.subrange(0, 4)[0] == buf@[0] && buf@.subrange(0, 4)[1] == buf@[1]
                    && buf@.subrange(0, 4)[2] == buf@[2] && buf@.subrange(0, 4)[3] == buf@[3]);
                ChannelAction::ReapAndFail(v)
            } else {
                ChannelAction::ReapAndAbort
            }
        },
        ChannelRead::Interrupted => ChannelAction::Retry,
        ChannelRead::Failed(_) => ChannelAction::ReapAndAbort,
    }
}

/// A report read whole is decoded back to the errno that was sent.
pub proof fn lemma_report_round_trip(errno: i32)
    ensures
        spec_report(errno).len() == 8,
        spec_channel_action(ChannelRead::Bytes(8), spec_report(errno)) == ChannelAction::ReapAndFail(
            errno,
        ),
{
    let b = spec_report(errno);
    assert(b.subrange(4, 8) =~= report_footer());
    assert(b.subrange(0, 4) =~= spec_be_bytes(errno));
    let u = errno as u32;
    let c = b.subrange(0, 4);
    assert(c[0] == (u >> 24) as u8 && c[1] == ((u >> 16) & 0xff) as u8 && c[2] == ((u >> 8)
        & 0xff) as u8 && c[3] == (u & 0xff) as u8);
    assert(((((((((errno as u32) >> 24) as u8) as u32) << 24) | ((((((errno as u32) >> 16)
        & 0xff) as u8) as u32) << 16) | ((((((errno as u32) >> 8) & 0xff) as u8) as u32) << 8)
        | ((((errno as u32) & 0xff) as u8) as u32)) as i32) == errno)) by (bit_vector);
}

/// A channel closed without a byte means the child started; no report is read as a start.
pub proof fn lemma_empty_read_is_start(buf: Seq<u8>)
    ensures
        spec_channel_action(ChannelRead::Bytes(0), buf) == ChannelAction::Started,
        forall|errno: i32| spec_channel_action(ChannelRead::Bytes(8), #[trigger] spec_report(errno))
            != ChannelAction::Started,
{
    assert forall|errno: i32| spec_channel_action(ChannelRead::Bytes(8), #[trigger] spec_report(errno))
        != ChannelAction::Started by {
        lemma_report_round_trip(errno);
    }
}

} // verus!
