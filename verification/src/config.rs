//! The configuration of the service and what may be wrong with it.

use vstd::prelude::*;
use vstd::string::StringExecFns;
use crate::identity::Millis;
use crate::text::{decimal, decimal_text, join3};

verus! {

/// The number of live connections above which none is admitted, whatever
/// the configuration allows.
pub const HARD_CONNECTION_CEILING: usize = 50;

/// The capacity of the broadcaster where the configuration names none.
pub const DEFAULT_CHANNEL_CAPACITY: usize = 1000;

/// The configuration of the service.
#[derive(Debug, Clone, Copy, PartialEq, Eq)]
pub struct WsConfig {
    /// The time between two liveness probes.
    pub ping_interval: Millis,
    /// The time without activity after which a connection counts as stale.
    pub connection_timeout: Millis,
    /// The largest number of connections that may live at once.
    pub max_connections: usize,
    /// The capacity of the broadcaster, if it is not the default one.
    pub buffer_size: Option<usize>,
}

impl Default for WsConfig {
    /// The standard configuration.
    fn default() -> (r: Self)
        ensures
            r == WsConfig::standard(),
    {
        WsConfig {
            ping_interval: 30_000,
            connection_timeout: 300_000,
            max_connections: 1000,
            buffer_size: Some(65_536),
        }
    }
}

/// A sequence of one text where `present` holds, of none where it does not.
pub open spec fn issue_if(present: bool, text: Seq<char>) -> Seq<Seq<char>> {
    if present {
        seq![text]
    } else {
        Seq::empty()
    }
}

impl WsConfig {
    /// The standard configuration: a probe every 30 seconds, a timeout of
    /// five minutes, a thousand connections and a buffer of 64 Ki entries.
    pub open spec fn standard() -> WsConfig {
        WsConfig {
            ping_interval: 30_000,
            connection_timeout: 300_000,
            max_connections: 1000,
            buffer_size: Some(65_536usize),
        }
    }

    /// Whether a broadcaster can be made with the capacity: it is not
    /// zero and not above half of the largest `usize`.
    pub open spec fn usable_capacity(n: usize) -> bool {
        0 < n <= usize::MAX / 2
    }

    /// The capacity that the broadcaster is made with: the buffer size
    /// where one is named and can be used, the default one where none is
    /// named or the one that is named cannot be used.
    pub open spec fn channel_capacity(self) -> usize {
        match self.buffer_size {
            Some(n) => if WsConfig::usable_capacity(n) {
                n
            } else {
                DEFAULT_CHANNEL_CAPACITY
            },
            None => DEFAULT_CHANNEL_CAPACITY,
        }
    }

    /// The whole seconds of the probe interval.
    pub open spec fn ping_seconds(self) -> nat {
        (self.ping_interval / 1000) as nat
    }

    /// The whole seconds of the timeout.
    pub open spec fn timeout_seconds(self) -> nat {
        (self.connection_timeout / 1000) as nat
    }

    /// No connection can ever be admitted.
    pub open spec fn admits_none(self) -> bool {
        self.max_connections == 0
    }

    /// The probe interval is longer than five minutes.
    pub open spec fn ping_very_long(self) -> bool {
        self.ping_seconds() > 300
    }

    /// The timeout is shorter than half a minute.
    pub open spec fn timeout_very_short(self) -> bool {
        self.timeout_seconds() < 30
    }

    /// A connection may time out before it is probed.
    pub open spec fn ping_not_below_timeout(self) -> bool {
        self.ping_interval >= self.connection_timeout
    }

    /// What is wrong with the configuration, as one text for each finding,
    /// in a fixed order. A configuration with findings is still used.
    pub open spec fn issue_texts(self) -> Seq<Seq<char>> {
        issue_if(
            self.admits_none(),
            "max_connections is set to 0 - no connections will be allowed"@,
        ) + issue_if(
            self.ping_very_long(),
            "ping_interval is very long ("@ + decimal_text(self.ping_seconds())
                + " seconds) - may cause connection timeouts"@,
        ) + issue_if(
            self.timeout_very_short(),
            "connection_timeout is very short ("@ + decimal_text(self.timeout_seconds())
                + " seconds) - may cause premature disconnections"@,
        ) + issue_if(
            self.ping_not_below_timeout(),
            "ping_interval is greater than or equal to connection_timeout - connections may timeout before ping"@,
        )
    }

    /// The capacity that the broadcaster is made with. It can always be
    /// used.
    pub fn capacity(&self) -> (r: usize)
        ensures
            r == self.channel_capacity(),
            WsConfig::usable_capacity(r),
    {
        match self.buffer_size {
            Some(n) => if 0 < n && n <= usize::MAX / 2 {
                n
            } else {
                DEFAULT_CHANNEL_CAPACITY
            },
            None => DEFAULT_CHANNEL_CAPACITY,
        }
    }

    /// Lists what is wrong with the configuration. An empty list means that
    /// nothing was found.
    pub fn validate(&self) -> (issues: Vec<String>)
        ensures
            crate::text::texts(issues@) == self.issue_texts(),
    {
        let mut issues: Vec<String> = Vec::new();
        let ghost zero = issue_if(
            self.admits_none(),
            "max_connections is set to 0 - no connections will be allowed"@,
        );
        let ghost long = issue_if(
            self.ping_very_long(),
            "ping_interval is very long ("@ + decimal_text(self.ping_seconds())
                + " seconds) - may cause connection timeouts"@,
        );
        let ghost short = issue_if(
            self.timeout_very_short(),
            "connection_timeout is very short ("@ + decimal_text(self.timeout_seconds())
                + " seconds) - may cause premature disconnections"@,
        );
        let ghost late = issue_if(
            self.ping_not_below_timeout(),
            "ping_interval is greater than or equal to connection_timeout - connections may timeout before ping"@,
        );
        if self.max_connections == 0 {
            issues.push(
                String::from_str("max_connections is set to 0 - no connections will be allowed"),
            );
        }
        assert(crate::text::texts(issues@) =~= zero);
        let ping_seconds: u64 = self.ping_interval / 1000;
        if ping_seconds > 300 {
            let number: String = decimal(ping_seconds);
            issues.push(
                join3(
                    "ping_interval is very long (",
                    number.as_str(),
                    " seconds) - may cause connection timeouts",
                ),
            );
        }
        assert(crate::text::texts(issues@) =~= zero + long);
        let timeout_seconds: u64 = self.connection_timeout / 1000;
        if timeout_seconds < 30 {
            let number: String = decimal(timeout_seconds);
            issues.push(
                join3(
                    "connection_timeout is very short (",
                    number.as_str(),
                    " seconds) - may cause premature disconnections",
                ),
            );
        }
        assert(crate::text::texts(issues@) =~= zero + long + short);
        if self.ping_interval >= self.connection_timeout {
            issues.push(
                String::from_str(
                    "ping_interval is greater than or equal to connection_timeout - connections may timeout before ping",
                ),
            );
        }
        assert(crate::text::texts(issues@) =~= zero + long + short + late);
        issues
    }
}

} // verus!
