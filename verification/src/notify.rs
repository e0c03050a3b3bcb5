//! Notifications: what is sent when an input changes, and to whom.

use vstd::prelude::*;
use vstd::string::StringSliceAdditionalSpecFns;
use vstd::utf8::{is_ascii_chars, is_ascii_chars_encode_utf8};
use crate::codec::{bool_message_bytes, encode_bool_message};
use crate::config::OscClient;

verus! {

/// The report of one level change on an input line.
#[derive(Clone, Copy, Debug, PartialEq, Eq, Structural)]
pub struct Notification {
    pub pin: u8,
    pub level: bool,
}

/// The character of a decimal digit.
pub open spec fn digit(d: nat) -> char {
    (0x30 + d) as char
}

/// The decimal numeral of `n`, without leading zeros.
pub open spec fn decimal(n: nat) -> Seq<char>
    decreases n,
{
    if n < 10 {
        seq![digit(n)]
    } else {
        decimal(n / 10).push(digit(n % 10))
    }
}

/// The path that the changes of one line are reported under.
pub open spec fn notification_address(pin: u8) -> Seq<char> {
    "/gpio/pin/"@ + decimal(pin as nat)
}

/// The bytes of a text that holds ASCII only: one per character.
pub open spec fn ascii_bytes(s: Seq<char>) -> Seq<u8> {
    Seq::new(s.len(), |i: int| s[i] as u8)
}

/// The datagram that reports a notification: a message to the line's
/// path with the new level as its one boolean argument.
pub open spec fn notification_bytes(n: Notification) -> Seq<u8> {
    bool_message_bytes(ascii_bytes(notification_address(n.pin)), n.level)
}

/// The numeral of one decimal digit.
fn digit_str(d: u8) -> (r: &'static str)
    requires
        d < 10,
    ensures
        r@ == seq![digit(d as nat)],
{
    proof {
        reveal_strlit("0");
        reveal_strlit("1");
        reveal_strlit("2");
        reveal_strlit("3");
        reveal_strlit("4");
        reveal_strlit("5");
        reveal_strlit("6");
        reveal_strlit("7");
        reveal_strlit("8");
        reveal_strlit("9");
    }
    let r = match d {
        0 => "0",
        1 => "1",
        2 => "2",
        3 => "3",
        4 => "4",
        5 => "5",
        6 => "6",
        7 => "7",
        8 => "8",
        _ => "9",
    };
    r
}

/// Writes the path that the changes of the line `pin` are reported under.
pub fn address_of(pin: u8) -> (r: String)
    ensures
        r@ == notification_address(pin),
        is_ascii_chars(r@),
{
    let mut addr = String::from_str("/gpio/pin/");
    proof {
        reveal_strlit("/gpio/pin/");
        reveal_with_fuel(decimal, 3);
    }
    if pin >= 100 {
        addr.append(digit_str(pin / 100));
    }
    if pin >= 10 {
        addr.append(digit_str((pin / 10) % 10));
    }
    addr.append(digit_str(pin % 10));
    addr
}

/// Encodes a notification as the datagram that reports it.
pub fn encode_notification(notification: Notification) -> (r: Vec<u8>)
    ensures
        r@ == notification_bytes(notification),
{
    let addr = address_of(notification.pin);
    let path: &str = addr.as_str();
    proof {
        is_ascii_chars_encode_utf8(path@);
    }
    match encode_bool_message(path, notification.level) {
        Ok(bytes) => bytes,
        // The encoder reports no error for a message.
        Err(_) => Vec::new(),
    }
}

/// One datagram for one client.
#[derive(Clone, Debug, PartialEq, Eq)]
pub struct Delivery {
    /// The position of the client in the registry.
    pub client: usize,
    /// The bytes to send.
    pub payload: Vec<u8>,
}

/// The mathematical content of a [`Delivery`].
pub struct DeliveryView {
    pub client: nat,
    pub payload: Seq<u8>,
}

impl View for Delivery {
    type V = DeliveryView;

    open spec fn view(&self) -> DeliveryView {
        DeliveryView { client: self.client as nat, payload: self.payload@ }
    }
}

/// The deliveries that a notification asks for among `clients` clients:
/// one for each, in registry order, all with the same bytes.
pub open spec fn deliveries(n: Notification, clients: nat) -> Seq<DeliveryView> {
    Seq::new(clients, |i: int| DeliveryView { client: i as nat, payload: notification_bytes(n) })
}

/// The clients to notify. Fixed once built.
#[derive(Debug)]
pub struct ClientRegistry {
    clients: Vec<OscClient>,
}

impl View for ClientRegistry {
    type V = Seq<OscClient>;

    closed spec fn view(&self) -> Seq<OscClient> {
        self.clients@
    }
}

impl ClientRegistry {
    /// Builds the registry of the configured clients.
    pub fn new(clients: Vec<OscClient>) -> (r: ClientRegistry)
        ensures
            r@ == clients@,
    {
        ClientRegistry { clients }
    }

    /// The clients, in configured order.
    pub fn clients(&self) -> (r: &Vec<OscClient>)
        ensures
            r@ == self@,
    {
        &self.clients
    }

    /// Fans a notification out: one delivery for each client, in registry
    /// order. What becomes of one delivery has no bearing on the others.
    pub fn fan_out(&self, notification: Notification) -> (r: Vec<Delivery>)
        ensures
            r@.len() == self@.len(),
            forall|i: int|
                0 <= i < r@.len() ==> (#[trigger] r@[i])@ == deliveries(
                    notification,
                    self@.len(),
                )[i],
    {
        let payload = encode_notification(notification);
        let mut out: Vec<Delivery> = Vec::new();
        let mut i: usize = 0;
        while i < self.clients.len()
            invariant
                i <= self.clients@.len(),
                out@.len() == i,
                payload@ == notification_bytes(notification),
                forall|k: int|
                    0 <= k < i ==> (#[trigger] out@[k]).client == k && out@[k].payload@
                        == notification_bytes(notification),
            decreases self.clients@.len() - i,
        {
            out.push(Delivery { client: i, payload: payload.clone() });
            i += 1;
        }
        out
    }
}

} // verus!
