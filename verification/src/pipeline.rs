//! Textual descriptions of the GStreamer pipelines, in `gst-launch` syntax.
use vstd::prelude::*;

verus! {

/// Name of the element that ends each pipeline and that the program looks up.
pub const SINK_NAME: &'static str = "sink";

/// Start of the sender pipeline, before the PipeWire node id.
pub const SCREENCAST_HEAD: &'static str = "pipewiresrc path=";

/// Rest of the sender pipeline: queue, convert, H.264 encode tuned for low
/// latency, RTP payloading, and an application sink named `sink`.
pub const SCREENCAST_TAIL: &'static str = " ! queue ! videoconvert ! x264enc tune=zerolatency speed-preset=ultrafast ! rtph264pay ! appsink name=sink sync=false";

/// Start of the receiver pipeline, before the UDP port.
pub const RECEIVER_HEAD: &'static str = "udpsrc port=";

/// Rest of the receiver pipeline: RTP H.264 caps, depayload, parse, hardware
/// decode, and an OpenGL sink named `sink`.
pub const RECEIVER_TAIL: &'static str = " ! application/x-rtp, media=video, clock-rate=90000, encoding-name=H264, payload=96 ! rtph264depay ! h264parse ! vtdec ! glimagesink name=sink";

/// The character of a decimal digit.
pub open spec fn digit_char(d: nat) -> char {
    if d == 0 {
        '0'
    } else if d == 1 {
        '1'
    } else if d == 2 {
        '2'
    } else if d == 3 {
        '3'
    } else if d == 4 {
        '4'
    } else if d == 5 {
        '5'
    } else if d == 6 {
        '6'
    } else if d == 7 {
        '7'
    } else if d == 8 {
        '8'
    } else {
        '9'
    }
}

/// The decimal representation of `n`, without sign or leading zeros.
pub open spec fn decimal(n: nat) -> Seq<char>
    decreases n,
{
    if n < 10 {
        seq![digit_char(n)]
    } else {
        decimal(n / 10).push(digit_char(n % 10))
    }
}

/// The value of a decimal digit character (0 for any other character).
pub open spec fn digit_value(c: char) -> nat {
    if c == '1' {
        1
    } else if c == '2' {
        2
    } else if c == '3' {
        3
    } else if c == '4' {
        4
    } else if c == '5' {
        5
    } else if c == '6' {
        6
    } else if c == '7' {
        7
    } else if c == '8' {
        8
    } else if c == '9' {
        9
    } else {
        0
    }
}

/// Whether `c` is one of the characters `0` to `9`.
pub open spec fn is_digit(c: char) -> bool {
    '0' <= c && c <= '9'
}

/// The number that a string of decimal digits denotes.
pub open spec fn decimal_value(s: Seq<char>) -> nat
    decreases s.len(),
{
    if s.len() == 0 {
        0
    } else {
        decimal_value(s.drop_last()) * 10 + digit_value(s.last())
    }
}

/// Law: the decimal representation of `n` is a non-empty string of digits,
/// without a leading zero unless it is `0` itself, that denotes `n`.
pub proof fn lemma_decimal_reads_back(n: nat)
    ensures
        decimal(n).len() >= 1,
        n >= 10 ==> decimal(n).len() > 1,
        forall|i: int| 0 <= i < decimal(n).len() ==> is_digit(#[trigger] decimal(n)[i]),
        decimal(n).len() > 1 ==> decimal(n)[0] != '0',
        decimal_value(decimal(n)) == n,
    decreases n,
{
    let d = decimal(n);
    if n < 10 {
        assert(d.drop_last() =~= Seq::<char>::empty());
        assert(decimal_value(d.drop_last()) == 0);
        assert(digit_value(digit_char(n)) == n);
    } else {
        let m = n / 10;
        lemma_decimal_reads_back(m);
        assert(d.drop_last() =~= decimal(m));
        assert(d.last() == digit_char(n % 10));
        assert(digit_value(digit_char(n % 10)) == n % 10);
        assert(n == m * 10 + n % 10);
        assert(d[0] == decimal(m)[0]);
        if m < 10 {
            assert(decimal(m)[0] == digit_char(m));
            assert(m >= 1);
        } else {
            assert(decimal(m).len() > 1);
        }
        assert forall|i: int| 0 <= i < d.len() implies is_digit(#[trigger] d[i]) by {
            if i < d.len() - 1 {
                assert(d[i] == decimal(m)[i]);
            }
        }
    }
}

/// The one-character string of a decimal digit.
fn digit_str(d: u32) -> (s: &'static str)
    requires
        d < 10,
    ensures
        s@ == seq![digit_char(d as nat)],
{
    proof {
        reveal_strlit("0");
        reveal_strlit("1");
        reveal_strlit("2");
        reveal_strlit("3");
        reveal_strlit("4");
        reveal_strlit("5");
        reveal_strlit("6");
        reveal_strlit("7");
        reveal_strlit("8");
        reveal_strlit("9");
    }
    if d == 0 {
        "0"
    } else if d == 1 {
        "1"
    } else if d == 2 {
        "2"
    } else if d == 3 {
        "3"
    } else if d == 4 {
        "4"
    } else if d == 5 {
        "5"
    } else if d == 6 {
        "6"
    } else if d == 7 {
        "7"
    } else if d == 8 {
        "8"
    } else {
        "9"
    }
}

/// Appends the decimal representation of `n` to `s`.
fn push_decimal(s: &mut String, n: u32)
    ensures
        final(s)@ == old(s)@ + decimal(n as nat),
    decreases n,
{
    if n < 10 {
        s.append(digit_str(n));
        assert(decimal(n as nat) == seq![digit_char(n as nat)]);
    } else {
        push_decimal(s, n / 10);
        s.append(digit_str(n % 10));
        assert(decimal(n as nat) == decimal((n / 10) as nat).push(digit_char((n % 10) as nat)));
    }
}

/// The decimal representation of `n`.
pub fn decimal_string(n: u32) -> (r: String)
    ensures
        r@ == decimal(n as nat),
{
    let mut s = String::new();
    push_decimal(&mut s, n);
    assert(s@ =~= decimal(n as nat));
    s
}

/// The sender pipeline that captures the PipeWire node `node_id` (the
/// screen-cast stream the portal granted), encodes it as low-latency H.264
/// in RTP packets and hands them to the sink named `sink`.
pub fn screencast_pipeline_description(node_id: u32) -> (r: String)
    ensures
        r@ == SCREENCAST_HEAD@ + decimal(node_id as nat) + SCREENCAST_TAIL@,
{
    let mut s = String::new();
    s.append(SCREENCAST_HEAD);
    push_decimal(&mut s, node_id);
    s.append(SCREENCAST_TAIL);
    assert(s@ =~= SCREENCAST_HEAD@ + decimal(node_id as nat) + SCREENCAST_TAIL@);
    s
}

/// The receiver pipeline that listens for RTP H.264 video on UDP `port`,
/// decodes it and shows it in the sink named `sink`.
pub fn receiver_pipeline_description(port: u16) -> (r: String)
    ensures
        r@ == RECEIVER_HEAD@ + decimal(port as nat) + RECEIVER_TAIL@,
{
    let mut s = String::new();
    s.append(RECEIVER_HEAD);
    push_decimal(&mut s, port as u32);
    s.append(RECEIVER_TAIL);
    assert(s@ =~= RECEIVER_HEAD@ + decimal(port as nat) + RECEIVER_TAIL@);
    s
}

/// The PipeWire node to capture among the streams the screen-cast portal
/// granted (given by their node ids): the first one; `None` when the portal
/// granted none.
pub fn first_stream_node(node_ids: &Vec<u32>) -> (r: Option<u32>)
    ensures
        node_ids@.len() == 0 ==> r is None,
        node_ids@.len() > 0 ==> r == Some(node_ids@[0]),
{
    if node_ids.len() == 0 {
        None
    } else {
        Some(node_ids[0])
    }
}

} // verus!
