//! The orders that configure the proxy, and its answers to them.

use vstd::prelude::*;
use vstd::std_specs::cmp::PartialEqSpecImpl;
use vstd::string::StringExecFns;

verus! {

/// A front: requests for `hostname` go to the instances of the application `app_id`.
#[derive(Debug)]
pub struct HttpFront {
    pub app_id: String,
    pub hostname: String,
    pub path_begin: String,
}

/// The text of the three parts of a front.
pub struct FrontView {
    pub app_id: Seq<char>,
    pub hostname: Seq<char>,
    pub path_begin: Seq<char>,
}

impl View for HttpFront {
    type V = FrontView;

    open spec fn view(&self) -> FrontView {
        FrontView {
            app_id: self.app_id@,
            hostname: self.hostname@,
            path_begin: self.path_begin@,
        }
    }
}

impl Clone for HttpFront {
    fn clone(&self) -> (copy: Self)
        ensures
            copy == *self,
    {
        HttpFront {
            app_id: self.app_id.clone(),
            hostname: self.hostname.clone(),
            path_begin: self.path_begin.clone(),
        }
    }
}

impl PartialEq for HttpFront {
    fn eq(&self, other: &Self) -> (same: bool) {
        self.app_id == other.app_id && self.hostname == other.hostname && self.path_begin
            == other.path_begin
    }
}

impl PartialEqSpecImpl for HttpFront {
    open spec fn obeys_eq_spec() -> bool {
        true
    }

    open spec fn eq_spec(&self, other: &Self) -> bool {
        self@ == other@
    }
}

/// One running instance of an application. The address is still text.
#[derive(Debug)]
pub struct Instance {
    pub app_id: String,
    pub ip_address: String,
    pub port: u16,
}

/// The decimal digits of a number.
pub open spec fn decimal(n: nat) -> Seq<char>
    decreases n,
{
    let digits = seq!['0', '1', '2', '3', '4', '5', '6', '7', '8', '9'];
    if n < 10 {
        seq![digits[n as int]]
    } else {
        decimal(n / 10).push(digits[(n % 10) as int])
    }
}

/// Appends the decimal digits of a port number.
fn append_decimal(text: &mut String, n: u16)
    ensures
        final(text)@ == old(text)@ + decimal(n as nat),
    decreases n,
{
    if n >= 10 {
        append_decimal(text, n / 10);
    }
    proof {
        reveal_strlit("0");
        reveal_strlit("1");
        reveal_strlit("2");
        reveal_strlit("3");
        reveal_strlit("4");
        reveal_strlit("5");
        reveal_strlit("6");
        reveal_strlit("7");
        reveal_strlit("8");
        reveal_strlit("9");
    }
    let digit = match n % 10 {
        0 => "0",
        1 => "1",
        2 => "2",
        3 => "3",
        4 => "4",
        5 => "5",
        6 => "6",
        7 => "7",
        8 => "8",
        _ => "9",
    };
    text.append(digit);
}

impl Instance {
    /// The address of the instance as text: the IP address, a colon and the port.
    pub open spec fn address_text(self) -> Seq<char> {
        self.ip_address@ + ":"@ + decimal(self.port as nat)
    }

    /// The address of the instance as text.
    pub fn address(&self) -> (text: String)
        ensures
            text@ == self.address_text(),
    {
        let mut text = self.ip_address.clone();
        text.append(":");
        append_decimal(&mut text, self.port);
        text
    }
}

/// A change of the configuration.
#[derive(Debug)]
pub enum Command {
    AddHttpFront(HttpFront),
    RemoveHttpFront(HttpFront),
    AddInstance(Instance),
    RemoveInstance(Instance),
    /// A change that concerns another kind of proxy.
    Other,
}

/// What can be asked of a running proxy.
#[derive(Debug)]
pub enum HttpProxyOrder {
    Command(Command),
    Stop,
}

impl HttpProxyOrder {
    /// The text of the address that an order names, which has to be parsed before the
    /// order can be carried out.
    pub fn address(&self) -> (text: Option<String>)
        ensures
            match *self {
                HttpProxyOrder::Command(Command::AddInstance(instance)) => text is Some
                    && text->0@ == instance.address_text(),
                HttpProxyOrder::Command(Command::RemoveInstance(instance)) => text is Some
                    && text->0@ == instance.address_text(),
                _ => text is None,
            },
    {
        match self {
            HttpProxyOrder::Command(Command::AddInstance(instance)) => Some(instance.address()),
            HttpProxyOrder::Command(Command::RemoveInstance(instance)) => Some(instance.address()),
            _ => None,
        }
    }
}

/// What the proxy answers.
#[derive(Debug, Clone, Copy, PartialEq, Eq, Structural)]
pub enum ServerMessage {
    AddedHttpFront,
    RemovedHttpFront,
    AddedInstance,
    RemovedInstance,
    Stopped,
}

} // verus!
