//! The options that all things share.
use crate::ident::{hyphenated_text, is_random, law_hyphenated_text_is_injective, new_v4, urn};
use crate::text::{
    decimal, decimal_text, law_decimal_is_injective, lemma_decimal_stands_for_its_number, number_of,
};
use vstd::prelude::*;
use vstd::string::*;

verus! {

/// The port that an address does not have to name.
pub const HTTP_PORT: u16 = 80;

/// The options that all things share.
#[derive(Debug)]
pub struct CliCommon {
    /// Listening port
    pub listen_port: u16,
    /// Binding address
    pub bind_addr: [u8; 4],
    /// Verbosity, more output per occurrence
    pub verbose: u8,
    /// The name of the host.
    ///
    /// When provided, it is used to create the `base` field inside the WoT description.
    pub host: Option<String>,
    /// Set the Thing id
    pub id: Option<String>,
    /// Set the Thing title
    pub title: Option<String>,
}

/// The level of detail of the log for a verbosity.
pub open spec fn log_level(verbose: u8) -> Seq<char> {
    if verbose == 0 {
        "error"@
    } else if verbose == 1 {
        "warn"@
    } else if verbose == 2 {
        "info"@
    } else if verbose == 3 {
        "debug"@
    } else {
        "trace"@
    }
}

/// How detailed the log is at a level, counted from the least detail.
pub open spec fn detail(level: Seq<char>) -> int {
    if level == "error"@ {
        0
    } else if level == "warn"@ {
        1
    } else if level == "info"@ {
        2
    } else if level == "debug"@ {
        3
    } else {
        4
    }
}

/// The address of a thing on the given host and port.
pub open spec fn base(host: Seq<char>, port: u16) -> Seq<char> {
    "http://"@ + host + (if port == HTTP_PORT {
        seq![]
    } else {
        ":"@ + decimal(port as nat)
    }) + "/"@
}

/// The name of the thing with the given identifier.
pub open spec fn urn_text(id: u128) -> Seq<char> {
    "urn:uuid:"@ + hyphenated_text(id)
}

impl CliCommon {
    /// The level of detail of the log, unless the environment sets another one.
    pub fn setup_tracing(&self) -> (filter: &'static str)
        ensures
            filter@ == log_level(self.verbose),
    {
        match self.verbose {
            0 => "error",
            1 => "warn",
            2 => "info",
            3 => "debug",
            _ => "trace",
        }
    }

    /// The filter to set for the log: none where the environment gives a valid one, which has
    /// precedence, and otherwise the level of detail for the verbosity.
    pub fn log_filter(&self, env_filter_is_valid: bool) -> (filter: Option<&'static str>)
        ensures
            match filter {
                Some(filter) => !env_filter_is_valid && filter@ == log_level(self.verbose),
                None => env_filter_is_valid,
            },
    {
        if env_filter_is_valid {
            None
        } else {
            Some(self.setup_tracing())
        }
    }

    /// The address and the port to listen on.
    pub fn socket_addr(&self) -> (addr: ([u8; 4], u16))
        ensures
            addr == (self.bind_addr, self.listen_port),
    {
        (self.bind_addr, self.listen_port)
    }

    /// The base of the thing, where the host is known.
    pub fn set_thing_base(&self) -> (thing_base: Option<String>)
        ensures
            match self.host {
                Some(host) => thing_base is Some && thing_base->0@ == base(
                    host@,
                    self.listen_port,
                ),
                None => thing_base is None,
            },
    {
        match &self.host {
            Some(host) => {
                let mut text = "http://".to_owned();
                text.append(host.as_str());
                if self.listen_port != HTTP_PORT {
                    text.append(":");
                    text.append(decimal_text(self.listen_port).as_str());
                }
                text.append("/");
                assert(text@ == base(host@, self.listen_port));
                Some(text)
            },
            None => None,
        }
    }

    /// The identifier of the thing: the given one, or else the name of a random UUID.
    pub fn set_thing_id(&self) -> (thing_id: String)
        ensures
            match self.id {
                Some(id) => thing_id@ == id@,
                None => exists|id: u128|
                    #![trigger urn_text(id)]
                    is_random(id) && thing_id@ == urn_text(id),
            },
    {
        match &self.id {
            Some(id) => id.clone(),
            None => {
                let id: u128 = new_v4();
                let text = urn(id);
                assert(text@ == urn_text(id));
                text
            },
        }
    }

    /// The title of the thing: the given one, or else the default.
    pub fn title_or<'a>(&'a self, default_title: &'a str) -> (title: &'a str)
        ensures
            title@ == match self.title {
                Some(title) => title@,
                None => default_title@,
            },
    {
        match &self.title {
            Some(title) => title.as_str(),
            None => default_title,
        }
    }
}

/// Each more occurrence of the option makes the log more detailed, as far as there is more detail.
pub proof fn law_verbosity_adds_detail(verbose: u8)
    ensures
        detail(log_level(verbose)) == if verbose < 4 {
            verbose as int
        } else {
            4
        },
{
    reveal_strlit("error");
    reveal_strlit("warn");
    reveal_strlit("info");
    reveal_strlit("debug");
    reveal_strlit("trace");
    assert("error"@[0] == 'e' && "warn"@[0] == 'w' && "info"@[0] == 'i' && "debug"@[0] == 'd'
        && "trace"@[0] == 't');
}

/// Things on one host have the same base only where they listen on the same port.
pub proof fn law_base_tells_ports_apart(host: Seq<char>, a: u16, b: u16)
    requires
        base(host, a) == base(host, b),
    ensures
        a == b,
{
    reveal_strlit(":");
    let start = ("http://"@ + host).len() as int;
    if a != HTTP_PORT && b != HTTP_PORT {
        let (ta, tb) = (decimal(a as nat), decimal(b as nat));
        assert(base(host, a).len() == start + 1 + ta.len() + "/"@.len());
        assert(base(host, b).len() == start + 1 + tb.len() + "/"@.len());
        assert(ta == base(host, a).subrange(start + 1, start + 1 + ta.len()));
        assert(tb == base(host, b).subrange(start + 1, start + 1 + tb.len()));
        law_decimal_is_injective(a as nat, b as nat);
    } else if a != b {
        let port = if a == HTTP_PORT {
            b
        } else {
            a
        };
        assert(base(host, HTTP_PORT).len() == start + "/"@.len());
        assert(base(host, port).len() == start + 1 + decimal(port as nat).len() + "/"@.len());
    }
}

/// Different identifiers have different names.
pub proof fn law_urns_tell_ids_apart(a: u128, b: u128)
    requires
        urn_text(a) == urn_text(b),
    ensures
        a == b,
{
    let prefix = "urn:uuid:"@;
    assert(hyphenated_text(a) == urn_text(a).skip(prefix.len() as int));
    assert(hyphenated_text(b) == urn_text(b).skip(prefix.len() as int));
    law_hyphenated_text_is_injective(a, b);
}

/// The log is as detailed as the verbosity asks for, from errors only up to everything, unless the
/// environment gives a valid filter, which is then left in place.
pub proof fn law_log_has_the_level_asked_for(
    cli: &CliCommon,
    env_filter_is_valid: bool,
    filter: Option<&'static str>,
    level: &'static str,
)
    requires
        call_ensures(CliCommon::log_filter, (cli, env_filter_is_valid), filter),
        call_ensures(CliCommon::setup_tracing, (cli,), level),
    ensures
        env_filter_is_valid <==> filter is None,
        filter matches Some(filter) ==> filter@ == level@,
        cli.verbose == 0 ==> level@ == "error"@,
        cli.verbose == 1 ==> level@ == "warn"@,
        cli.verbose == 2 ==> level@ == "info"@,
        cli.verbose == 3 ==> level@ == "debug"@,
        cli.verbose >= 4 ==> level@ == "trace"@,
{
}

/// The base of a thing is known exactly where its host is. It names the host, and the port in
/// decimal where it is not the one that need not be named.
pub proof fn law_base_names_host_and_port(cli: &CliCommon, thing_base: Option<String>)
    requires
        call_ensures(CliCommon::set_thing_base, (cli,), thing_base),
    ensures
        cli.host is Some <==> thing_base is Some,
        cli.host is Some && cli.listen_port == 80 ==> thing_base->0@ == "http://"@
            + cli.host->0@ + "/"@,
        cli.host is Some && cli.listen_port != 80 ==> exists|port: Seq<char>|
            {
                &&& #[trigger] number_of(port) == cli.listen_port
                &&& forall|i: int| 0 <= i < port.len() ==> '0' <= #[trigger] port[i] <= '9'
                &&& port[0] != '0' || cli.listen_port == 0
                &&& thing_base->0@ == "http://"@ + cli.host->0@ + ":"@ + port + "/"@
            },
{
    let port = decimal(cli.listen_port as nat);
    lemma_decimal_stands_for_its_number(cli.listen_port as nat);
    if cli.host is Some {
        if cli.listen_port == 80 {
            assert(thing_base->0@ == "http://"@ + cli.host->0@ + "/"@);
        } else {
            assert(thing_base->0@ == "http://"@ + cli.host->0@ + ":"@ + port + "/"@);
        }
    }
}

/// What is given as the identifier or the title of a thing is what it gets, whatever it is. A thing
/// without a given title has the default one, and one without a given identifier is named by a UUID
/// of its own.
pub proof fn law_given_names_are_kept(
    cli: &CliCommon,
    default_title: &'static str,
    title: &'static str,
    thing_id: String,
    addr: ([u8; 4], u16),
)
    requires
        call_ensures(CliCommon::title_or, (cli, default_title), title),
        call_ensures(CliCommon::set_thing_id, (cli,), thing_id),
        call_ensures(CliCommon::socket_addr, (cli,), addr),
    ensures
        cli.title matches Some(given) ==> title@ == given@,
        cli.title is None ==> title@ == default_title@,
        cli.id matches Some(given) ==> thing_id@ == given@,
        cli.id is None ==> exists|id: u128|
            is_random(id) && thing_id@ == "urn:uuid:"@ + #[trigger] hyphenated_text(id),
        addr.0 == cli.bind_addr,
        addr.1 == cli.listen_port,
{
    if cli.id is None {
        let id = choose|id: u128| is_random(id) && thing_id@ == #[trigger] urn_text(id);
        assert(thing_id@ == "urn:uuid:"@ + hyphenated_text(id));
    }
}

} // verus!
