//! UDP over the modem's AT sockets: the socket number the modem assigns, the outgoing packet
//! buffer, and the socket commands (bind, close, send with the payload in hexadecimal).
use vstd::prelude::*;

verus! {

/// Capacity of the outgoing packet buffer, in bytes.
pub const UDP_TX_BUF_SIZE: usize = 512;
/// Capacity of the incoming packet buffer, in bytes.
pub const UDP_RX_BUF_SIZE: usize = 512;

/// Decimal digits of `n`.
pub open spec fn decimal(n: nat) -> Seq<u8>
    decreases n,
{
    if n < 10 {
        seq![(0x30 + n) as u8]
    } else {
        decimal(n / 10).push((0x30 + n % 10) as u8)
    }
}

/// Decimal form of `n`, with a minus sign when it is negative.
pub open spec fn signed_decimal(n: int) -> Seq<u8> {
    if n < 0 {
        seq![0x2Du8] + decimal((-n) as nat)
    } else {
        decimal(n as nat)
    }
}

/// Appends the decimal digits of `n`.
pub fn push_decimal(v: &mut Vec<u8>, n: u64)
    ensures
        final(v)@ == old(v)@ + decimal(n as nat),
    decreases n,
{
    if n >= 10 {
        push_decimal(v, n / 10);
    }
    v.push((0x30 + n % 10) as u8);
    proof {
        if n < 10 {
            assert(n % 10 == n);
        }
    }
}

/// Appends the decimal form of `n`.
pub fn push_signed_decimal(v: &mut Vec<u8>, n: i8)
    ensures
        final(v)@ == old(v)@ + signed_decimal(n as int),
{
    if n < 0 {
        v.push(0x2D);
        let m: u64 = (0 - (n as i16)) as u64;
        push_decimal(v, m);
        assert(v@ =~= old(v)@ + signed_decimal(n as int));
    } else {
        push_decimal(v, n as u64);
    }
}

/// Upper-case hexadecimal digit of `d` (below 16).
pub open spec fn hex_digit(d: u8) -> u8 {
    if d < 10 {
        (0x30 + d) as u8
    } else {
        (0x41 + d - 10) as u8
    }
}

/// Upper-case hexadecimal form of `s`, two digits per byte.
pub open spec fn hex(s: Seq<u8>) -> Seq<u8>
    decreases s.len(),
{
    if s.len() == 0 {
        Seq::empty()
    } else {
        hex(s.drop_last()) + seq![hex_digit(s.last() / 16), hex_digit(s.last() % 16)]
    }
}

fn push_str(v: &mut Vec<u8>, s: &[u8])
    ensures
        final(v)@ == old(v)@ + s@,
{
    let mut i: usize = 0;
    while i < s.len()
        invariant
            i <= s@.len(),
            v@ == old(v)@ + s@.subrange(0, i as int),
        decreases s@.len() - i,
    {
        v.push(s[i]);
        proof {
            assert(s@.subrange(0, i + 1) =~= s@.subrange(0, i as int).push(s@[i as int]));
        }
        i = i + 1;
    }
    assert(s@.subrange(0, s@.len() as int) =~= s@);
}

fn hex_digit_of(d: u8) -> (r: u8)
    requires
        d < 16,
    ensures
        r == hex_digit(d),
{
    if d < 10 {
        0x30 + d
    } else {
        0x41 + d - 10
    }
}

/// "AT+USOCR=17": opens a UDP socket.
pub open spec fn open_command() -> Seq<u8> {
    seq![0x41u8, 0x54u8, 0x2Bu8, 0x55u8, 0x53u8, 0x4Fu8, 0x43u8, 0x52u8, 0x3Du8, 0x31u8, 0x37u8]
}

/// "AT+USOLI=" and "AT+USOCL=" and "AT+USOST=" share "AT+USO".
pub open spec fn uso() -> Seq<u8> {
    seq![0x41u8, 0x54u8, 0x2Bu8, 0x55u8, 0x53u8, 0x4Fu8]
}

/// "AT+USOLI=<socket>,<port>": binds the socket to a local port.
pub open spec fn bind_command(socket: i8, port: u16) -> Seq<u8> {
    uso() + seq![0x4Cu8, 0x49u8, 0x3Du8] + signed_decimal(socket as int) + seq![0x2Cu8] + decimal(
        port as nat,
    )
}

/// "AT+USOCL=<socket>,1": closes the socket.
pub open spec fn close_command(socket: i8) -> Seq<u8> {
    uso() + seq![0x43u8, 0x4Cu8, 0x3Du8] + signed_decimal(socket as int) + seq![0x2Cu8, 0x31u8]
}

/// `AT+USOST=<socket>,"<a>.<b>.<c>.<d>",<port>,<length>,"<payload in hexadecimal>"`: sends a
/// packet.
pub open spec fn send_command(socket: i8, ip: Seq<u8>, port: u16, payload: Seq<u8>) -> Seq<u8> {
    uso() + seq![0x53u8, 0x54u8, 0x3Du8] + signed_decimal(socket as int) + seq![0x2Cu8, 0x22u8]
        + decimal(ip[0] as nat) + seq![0x2Eu8] + decimal(ip[1] as nat) + seq![0x2Eu8] + decimal(
        ip[2] as nat,
    ) + seq![0x2Eu8] + decimal(ip[3] as nat) + seq![0x22u8, 0x2Cu8] + decimal(port as nat) + seq![
        0x2Cu8,
    ] + decimal(payload.len()) + seq![0x2Cu8, 0x22u8] + hex(payload) + seq![0x22u8]
}

/// The command that opens a UDP socket.
pub fn open_socket_command() -> (r: Vec<u8>)
    ensures
        r@ == open_command(),
{
    let r = vec![0x41u8, 0x54, 0x2B, 0x55, 0x53, 0x4F, 0x43, 0x52, 0x3D, 0x31, 0x37];
    assert(r@ =~= open_command());
    r
}

/// The socket number in the modem's answer to the open command: its first decimal digit, or 0
/// when it has none.
pub open spec fn first_digit(s: Seq<u8>) -> i8
    decreases s.len(),
{
    if s.len() == 0 {
        0
    } else if 0x30 <= s[0] && s[0] <= 0x39 {
        (s[0] - 0x30) as i8
    } else {
        first_digit(s.drop_first())
    }
}

/// The socket number in the modem's answer to the open command.
pub fn parse_socket(resp: &[u8]) -> (r: i8)
    ensures
        r == first_digit(resp@),
        0 <= r <= 9,
{
    let mut i: usize = 0;
    proof {
        assert(resp@.subrange(0, resp@.len() as int) =~= resp@);
    }
    while i < resp.len()
        invariant
            i <= resp@.len(),
            first_digit(resp@) == first_digit(resp@.subrange(i as int, resp@.len() as int)),
        decreases resp@.len() - i,
    {
        let b = resp[i];
        if 0x30 <= b && b <= 0x39 {
            return (b - 0x30) as i8;
        }
        proof {
            assert(resp@.subrange(i as int, resp@.len() as int).drop_first() =~= resp@.subrange(
                i + 1,
                resp@.len() as int,
            ));
        }
        i = i + 1;
    }
    0
}

/// The state of a UDP socket: its number (negative when closed), and the packet being
/// written.
pub struct NbUdp {
    socket: i8,
    tx_ip: Option<[u8; 4]>,
    tx_port: u16,
    tx_buffer: Vec<u8>,
}

impl NbUdp {
    pub closed spec fn spec_socket(&self) -> i8 {
        self.socket
    }

    pub closed spec fn spec_tx_ip(&self) -> Option<Seq<u8>> {
        match self.tx_ip {
            Some(ip) => Some(ip@),
            None => None,
        }
    }

    pub closed spec fn spec_tx_port(&self) -> u16 {
        self.tx_port
    }

    /// The bytes of the packet written so far.
    pub closed spec fn spec_payload(&self) -> Seq<u8> {
        self.tx_buffer@
    }

    /// The packet never exceeds the buffer.
    pub closed spec fn wf(&self) -> bool {
        self.tx_buffer@.len() <= UDP_TX_BUF_SIZE
    }

    /// A closed socket, with no packet.
    pub fn new() -> (r: Self)
        ensures
            r.wf(),
            r.spec_socket() == -1,
            r.spec_tx_ip() is None,
            r.spec_tx_port() == 0,
            r.spec_payload() == Seq::<u8>::empty(),
    {
        NbUdp { socket: -1, tx_ip: None, tx_port: 0, tx_buffer: Vec::new() }
    }

    pub fn socket(&self) -> (r: i8)
        ensures
            r == self.spec_socket(),
    {
        self.socket
    }

    /// Records the socket number the modem gave in its answer to the open command.
    pub fn set_socket_from_response(&mut self, resp: &[u8])
        requires
            old(self).wf(),
        ensures
            final(self).wf(),
            final(self).spec_socket() == first_digit(resp@),
            final(self).spec_tx_ip() == old(self).spec_tx_ip(),
            final(self).spec_tx_port() == old(self).spec_tx_port(),
            final(self).spec_payload() == old(self).spec_payload(),
    {
        self.socket = parse_socket(resp);
    }

    /// The command that binds the socket to local port `port`.
    pub fn bind_command(&self, port: u16) -> (r: Vec<u8>)
        ensures
            r@ == bind_command(self.spec_socket(), port),
    {
        let mut v: Vec<u8> = vec![0x41u8, 0x54, 0x2B, 0x55, 0x53, 0x4F, 0x4C, 0x49, 0x3D];
        assert(v@ =~= uso() + seq![0x4Cu8, 0x49u8, 0x3Du8]);
        push_signed_decimal(&mut v, self.socket);
        v.push(0x2C);
        push_decimal(&mut v, port as u64);
        assert(v@ =~= bind_command(self.spec_socket(), port));
        v
    }

    /// The command that closes the socket, when it is open (`None` otherwise).
    pub fn close_command(&self) -> (r: Option<Vec<u8>>)
        ensures
            self.spec_socket() >= 0 ==> (r matches Some(cmd) && cmd@ == close_command(self.spec_socket())),
            self.spec_socket() < 0 ==> r is None,
    {
        if self.socket < 0 {
            return None;
        }
        let mut v: Vec<u8> = vec![0x41u8, 0x54, 0x2B, 0x55, 0x53, 0x4F, 0x43, 0x4C, 0x3D];
        assert(v@ =~= uso() + seq![0x43u8, 0x4Cu8, 0x3Du8]);
        push_signed_decimal(&mut v, self.socket);
        v.push(0x2C);
        v.push(0x31);
        assert(v@ =~= close_command(self.spec_socket()));
        Some(v)
    }

    /// Marks the socket closed, once the modem has been told to close it.
    pub fn mark_closed(&mut self)
        requires
            old(self).wf(),
        ensures
            final(self).wf(),
            final(self).spec_socket() == -1,
            final(self).spec_tx_ip() == old(self).spec_tx_ip(),
            final(self).spec_tx_port() == old(self).spec_tx_port(),
            final(self).spec_payload() == old(self).spec_payload(),
    {
        self.socket = -1;
    }

    /// Starts a packet to `ip`:`port`. Fails (`false`) when the socket is closed.
    pub fn begin_packet(&mut self, ip: [u8; 4], port: u16) -> (r: bool)
        requires
            old(self).wf(),
        ensures
            final(self).wf(),
            r == (old(self).spec_socket() >= 0),
            r ==> final(self).spec_tx_ip() == Some(ip@) && final(self).spec_tx_port() == port
                && final(self).spec_payload() == Seq::<u8>::empty() && final(self).spec_socket()
                == old(self).spec_socket(),
            !r ==> final(self).spec_tx_ip() == old(self).spec_tx_ip() && final(self).spec_tx_port()
                == old(self).spec_tx_port() && final(self).spec_payload() == old(self).spec_payload()
                && final(self).spec_socket() == old(self).spec_socket(),
    {
        if self.socket < 0 {
            return false;
        }
        self.tx_ip = Some(ip);
        self.tx_port = port;
        self.tx_buffer = Vec::new();
        true
    }

    /// Adds `data` to the packet, as much of it as fits. Returns how many bytes were added.
    pub fn write(&mut self, data: &[u8]) -> (written: usize)
        requires
            old(self).wf(),
        ensures
            final(self).wf(),
            written == (if data@.len() <= UDP_TX_BUF_SIZE - old(self).spec_payload().len() {
                data@.len()
            } else {
                (UDP_TX_BUF_SIZE - old(self).spec_payload().len()) as nat
            }),
            final(self).spec_payload() == old(self).spec_payload() + data@.subrange(0, written as int),
            final(self).spec_socket() == old(self).spec_socket(),
            final(self).spec_tx_ip() == old(self).spec_tx_ip(),
            final(self).spec_tx_port() == old(self).spec_tx_port(),
    {
        let available = UDP_TX_BUF_SIZE - self.tx_buffer.len();
        let to_write = if data.len() < available {
            data.len()
        } else {
            available
        };
        let mut i: usize = 0;
        while i < to_write
            invariant
                to_write <= data@.len(),
                old(self).spec_payload().len() + to_write <= UDP_TX_BUF_SIZE,
                i <= to_write,
                self.tx_buffer@ == old(self).spec_payload() + data@.subrange(0, i as int),
                self.socket == old(self).spec_socket(),
                self.tx_port == old(self).spec_tx_port(),
                self.tx_ip == old(self).tx_ip,
            decreases to_write - i,
        {
            self.tx_buffer.push(data[i]);
            proof {
                assert(data@.subrange(0, i + 1) =~= data@.subrange(0, i as int).push(data@[i as int]));
            }
            i = i + 1;
        }
        to_write
    }

    /// The command that sends the packet, when one was started (`None` otherwise). It is built
    /// in a buffer of `CMD_CAP` bytes: a packet whose command would be longer gets a command cut
    /// as `sent_command` says.
    pub fn end_packet_command(&self) -> (r: Option<Vec<u8>>)
        requires
            self.wf(),
        ensures
            self.spec_tx_ip() is None ==> r is None,
            self.spec_tx_ip() matches Some(ip) ==> (r matches Some(cmd) && cmd@ == sent_command(
                self.spec_socket(),
                ip,
                self.spec_tx_port(),
                self.spec_payload(),
            )),
    {
        let ip = match self.tx_ip {
            Some(ip) => ip,
            None => return None,
        };
        let mut v: Vec<u8> = vec![0x41u8, 0x54, 0x2B, 0x55, 0x53, 0x4F, 0x53, 0x54, 0x3D];
        assert(v@ =~= uso() + seq![0x53u8, 0x54u8, 0x3Du8]);
        push_signed_decimal(&mut v, self.socket);
        v.push(0x2C);
        v.push(0x22);
        push_decimal(&mut v, ip[0] as u64);
        v.push(0x2E);
        push_decimal(&mut v, ip[1] as u64);
        v.push(0x2E);
        push_decimal(&mut v, ip[2] as u64);
        v.push(0x2E);
        push_decimal(&mut v, ip[3] as u64);
        v.push(0x22);
        v.push(0x2C);
        push_decimal(&mut v, self.tx_port as u64);
        v.push(0x2C);
        push_decimal(&mut v, self.tx_buffer.len() as u64);
        v.push(0x2C);
        v.push(0x22);
        let ghost head = v@;
        proof {
            assert(head =~= send_header(self.spec_socket(), ip@, self.spec_tx_port(), self.tx_buffer@.len()));
            lemma_header_len(self.spec_socket(), ip@, self.spec_tx_port(), self.tx_buffer@.len());
            assert(hex_bounded(head, self.tx_buffer@.subrange(0, 0)) == head);
        }
        let mut i: usize = 0;
        while i < self.tx_buffer.len()
            invariant
                i <= self.tx_buffer@.len(),
                v@ == hex_bounded(head, self.tx_buffer@.subrange(0, i as int)),
                v@.len() <= CMD_CAP,
            decreases self.tx_buffer@.len() - i,
        {
            let b = self.tx_buffer[i];
            if b < 16 {
                push_bounded(&mut v, &[0x30u8]);
                let d = [hex_digit_of(b)];
                push_bounded(&mut v, &d);
            } else {
                let d = [hex_digit_of(b / 16), hex_digit_of(b % 16)];
                push_bounded(&mut v, &d);
            }
            proof {
                let s = self.tx_buffer@.subrange(0, i + 1);
                assert(s.drop_last() =~= self.tx_buffer@.subrange(0, i as int));
                assert(s.last() == b);
            }
            i = i + 1;
        }
        assert(self.tx_buffer@.subrange(0, self.tx_buffer@.len() as int) =~= self.tx_buffer@);
        push_bounded(&mut v, &[0x22u8]);
        Some(v)
    }
}

/// Capacity of the buffer the send command is built in, in bytes.
pub const CMD_CAP: usize = 1024;

/// `s` followed by `piece` when the whole fits in `CMD_CAP` bytes; `s` otherwise (a piece that
/// does not fit is left out whole).
pub open spec fn bounded(s: Seq<u8>, piece: Seq<u8>) -> Seq<u8> {
    if s.len() + piece.len() <= CMD_CAP {
        s + piece
    } else {
        s
    }
}

/// `s` followed by the two hexadecimal digits of `b`, each piece only if it fits: a byte below
/// 16 is written as a padding zero, then its digit; a larger one as its two digits at once.
pub open spec fn hex_piece(s: Seq<u8>, b: u8) -> Seq<u8> {
    if b < 16 {
        bounded(bounded(s, seq![0x30u8]), seq![hex_digit(b)])
    } else {
        bounded(s, seq![hex_digit(b / 16), hex_digit(b % 16)])
    }
}

/// `s` followed by the hexadecimal form of `payload`, byte by byte, as far as it fits.
pub open spec fn hex_bounded(s: Seq<u8>, payload: Seq<u8>) -> Seq<u8>
    decreases payload.len(),
{
    if payload.len() == 0 {
        s
    } else {
        hex_piece(hex_bounded(s, payload.drop_last()), payload.last())
    }
}

/// `AT+USOST=<socket>,"<a>.<b>.<c>.<d>",<port>,<length>,"`: the start of the send command.
pub open spec fn send_header(socket: i8, ip: Seq<u8>, port: u16, len: nat) -> Seq<u8> {
    uso() + seq![0x53u8, 0x54u8, 0x3Du8] + signed_decimal(socket as int) + seq![0x2Cu8, 0x22u8]
        + decimal(ip[0] as nat) + seq![0x2Eu8] + decimal(ip[1] as nat) + seq![0x2Eu8] + decimal(
        ip[2] as nat,
    ) + seq![0x2Eu8] + decimal(ip[3] as nat) + seq![0x22u8, 0x2Cu8] + decimal(port as nat) + seq![
        0x2Cu8,
    ] + decimal(len) + seq![0x2Cu8, 0x22u8]
}

/// The send command as it goes out: its start (at most 43 bytes, so it always fits), then the
/// payload in hexadecimal and the closing quote, each piece only if it still fits in
/// `CMD_CAP` bytes.
pub open spec fn sent_command(socket: i8, ip: Seq<u8>, port: u16, payload: Seq<u8>) -> Seq<u8> {
    bounded(hex_bounded(send_header(socket, ip, port, payload.len()), payload), seq![0x22u8])
}

fn push_bounded(v: &mut Vec<u8>, piece: &[u8])
    requires
        old(v)@.len() <= CMD_CAP,
    ensures
        final(v)@ == bounded(old(v)@, piece@),
        final(v)@.len() <= CMD_CAP,
{
    if piece.len() <= CMD_CAP - v.len() {
        push_str(v, piece);
    }
}

/// Ten to the power `k`.
pub open spec fn pow10(k: nat) -> nat
    decreases k,
{
    if k == 0 {
        1
    } else {
        10 * pow10((k - 1) as nat)
    }
}

proof fn lemma_decimal_len(n: nat, k: nat)
    requires
        k >= 1,
        n < pow10(k),
    ensures
        decimal(n).len() <= k,
    decreases n,
{
    if n >= 10 {
        assert(k >= 2) by {
            if k == 1 {
                assert(pow10(1) == 10) by {
                    reveal_with_fuel(pow10, 2);
                }
            }
        }
        lemma_decimal_len(n / 10, (k - 1) as nat);
    }
}

proof fn lemma_header_len(socket: i8, ip: Seq<u8>, port: u16, len: nat)
    requires
        ip.len() == 4,
        len <= UDP_TX_BUF_SIZE,
    ensures
        send_header(socket, ip, port, len).len() <= 43,
{
    assert(pow10(3) == 1000 && pow10(5) == 100000) by {
        reveal_with_fuel(pow10, 6);
    }
    lemma_decimal_len(ip[0] as nat, 3);
    lemma_decimal_len(ip[1] as nat, 3);
    lemma_decimal_len(ip[2] as nat, 3);
    lemma_decimal_len(ip[3] as nat, 3);
    lemma_decimal_len(port as nat, 5);
    lemma_decimal_len(len, 3);
    if socket < 0 {
        lemma_decimal_len((-socket) as nat, 3);
    } else {
        lemma_decimal_len(socket as nat, 3);
    }
}

proof fn lemma_hex_len(s: Seq<u8>)
    ensures
        hex(s).len() == 2 * s.len(),
    decreases s.len(),
{
    if s.len() > 0 {
        lemma_hex_len(s.drop_last());
    }
}

proof fn lemma_hex_bounded_fits(head: Seq<u8>, payload: Seq<u8>)
    requires
        head.len() + 2 * payload.len() <= CMD_CAP,
    ensures
        hex_bounded(head, payload) == head + hex(payload),
    decreases payload.len(),
{
    if payload.len() > 0 {
        let p = payload.drop_last();
        let b = payload.last();
        lemma_hex_bounded_fits(head, p);
        lemma_hex_len(p);
        assert(b < 16 ==> b / 16 == 0);
        assert((head + hex(p)) + seq![hex_digit(b / 16), hex_digit(b % 16)] =~= head + hex(payload));
        if b < 16 {
            assert((head + hex(p)) + seq![0x30u8] + seq![hex_digit(b)] =~= head + hex(payload));
        }
    }
}

/// A packet whose command fits in the buffer is sent whole: the command is its start, the
/// payload in hexadecimal and the closing quote.
pub proof fn lemma_command_whole_when_it_fits(socket: i8, ip: Seq<u8>, port: u16, payload: Seq<u8>)
    requires
        send_command(socket, ip, port, payload).len() <= CMD_CAP,
    ensures
        sent_command(socket, ip, port, payload) == send_command(socket, ip, port, payload),
{
    let head = send_header(socket, ip, port, payload.len());
    lemma_hex_len(payload);
    assert(send_command(socket, ip, port, payload) =~= head + hex(payload) + seq![0x22u8]);
    lemma_hex_bounded_fits(head, payload);
}

/// The socket commands as text: "AT+USOCR=17" opens a UDP socket, "AT+USOLI=" binds it,
/// "AT+USOCL=" closes it, "AT+USOST=" sends on it; decimal digits are '0' to '9' and hexadecimal
/// digits '0' to '9' then 'A' to 'F'.
pub proof fn lemma_documented_commands(d: u8, n: nat)
    ensures
        open_command() == seq![65u8, 84u8, 43u8, 85u8, 83u8, 79u8, 67u8, 82u8, 61u8, 49u8, 55u8],
        uso() == seq![65u8, 84u8, 43u8, 85u8, 83u8, 79u8],
        d < 10 ==> hex_digit(d) == 48 + d,
        10 <= d < 16 ==> hex_digit(d) == 65 + d - 10,
        n < 10 ==> decimal(n) == seq![(48 + n) as u8],
        UDP_TX_BUF_SIZE == 512 && CMD_CAP == 1024,
{
}

} // verus!
