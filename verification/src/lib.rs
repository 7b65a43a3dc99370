use vstd::prelude::*;

verus! {

/// The timeout, in milliseconds, that a finished configuration carries when
/// the builder was never told one.
pub const DEFAULT_TIMEOUT_MILLIS: u32 = 2000;

/// Opaque secure-transport material: a secret key and a certificate, both
/// carried as text. The contents are never inspected or validated here; the
/// builder stores the pair and hands it back unchanged.
#[derive(Debug, PartialEq)]
pub struct TLSCert {
    pub key: String,
    pub cert: String,
}

impl Clone for TLSCert {
    fn clone(&self) -> (res: Self)
        ensures
            res == *self,
    {
        TLSCert { key: self.key.clone(), cert: self.cert.clone() }
    }
}

/// The finished, immutable server configuration: a bind host and port,
/// optional secure-transport material, a hot-reload flag, and a timeout in
/// milliseconds.
#[derive(Debug, PartialEq)]
pub struct Server {
    pub host: String,
    pub port: u16,
    pub tls: Option<TLSCert>,
    pub hot_reload: bool,
    pub timeout: u32,
}

impl Server {
    /// A configuration is well formed when its host is non-empty text.
    pub open spec fn wf(self) -> bool {
        self.host@.len() > 0
    }

    /// Entry point: a builder holding the two mandatory fields, with every
    /// optional field still unset.
    pub fn new(host: String, port: u16) -> (r: ServerBuilder)
        requires
            host@.len() > 0,
        ensures
            r == ServerBuilder::init(host, port),
            r.wf(),
    {
        ServerBuilder { host, port, tls: None, hot_reload: None, timeout: None }
    }
}

/// Transient accumulator for a `Server`: the mandatory host and port are fixed
/// at creation, and each optional field is either still unset (`None`) or
/// holds the value of the latest setter call. Setters consume the builder and
/// return it, so calls chain; finalization borrows it, so it may run more
/// than once.
#[derive(Debug, PartialEq)]
pub struct ServerBuilder {
    pub host: String,
    pub port: u16,
    pub tls: Option<TLSCert>,
    pub hot_reload: Option<bool>,
    pub timeout: Option<u32>,
}

impl ServerBuilder {
    /// A builder is well formed when its host is non-empty text.
    pub open spec fn wf(self) -> bool {
        self.host@.len() > 0
    }

    /// The builder that `Server::new` returns: mandatory fields set, optional
    /// fields unset.
    pub open spec fn init(host: String, port: u16) -> ServerBuilder {
        ServerBuilder { host, port, tls: None, hot_reload: None, timeout: None }
    }

    /// This builder with its secure-transport material replaced by `tls`, all
    /// other fields unchanged.
    pub open spec fn with_tls(self, tls: TLSCert) -> ServerBuilder {
        ServerBuilder {
            host: self.host,
            port: self.port,
            tls: Some(tls),
            hot_reload: self.hot_reload,
            timeout: self.timeout,
        }
    }

    /// This builder with its hot-reload flag replaced by `hot_reload`, all
    /// other fields unchanged.
    pub open spec fn with_hot_reload(self, hot_reload: bool) -> ServerBuilder {
        ServerBuilder {
            host: self.host,
            port: self.port,
            tls: self.tls,
            hot_reload: Some(hot_reload),
            timeout: self.timeout,
        }
    }

    /// This builder with its timeout replaced by `timeout` milliseconds, all
    /// other fields unchanged.
    pub open spec fn with_timeout(self, timeout: u32) -> ServerBuilder {
        ServerBuilder {
            host: self.host,
            port: self.port,
            tls: self.tls,
            hot_reload: self.hot_reload,
            timeout: Some(timeout),
        }
    }

    /// The configuration this builder finalizes into: host and port copied as
    /// they are, each optional field resolved to the latest value set for it,
    /// or to its default where none ever was.
    pub open spec fn built(self) -> Server {
        Server {
            host: self.host,
            port: self.port,
            tls: self.tls,
            hot_reload: match self.hot_reload {
                Some(flag) => flag,
                None => false,
            },
            timeout: match self.timeout {
                Some(millis) => millis,
                None => DEFAULT_TIMEOUT_MILLIS,
            },
        }
    }

    /// Records the secure-transport material, overwriting any earlier value.
    pub fn tls(self, tls: TLSCert) -> (r: Self)
        ensures
            r == self.with_tls(tls),
    {
        ServerBuilder {
            host: self.host,
            port: self.port,
            tls: Some(tls),
            hot_reload: self.hot_reload,
            timeout: self.timeout,
        }
    }

    /// Records the hot-reload flag, overwriting any earlier value.
    pub fn hot_reload(self, hot_reload: bool) -> (r: Self)
        ensures
            r == self.with_hot_reload(hot_reload),
    {
        ServerBuilder {
            host: self.host,
            port: self.port,
            tls: self.tls,
            hot_reload: Some(hot_reload),
            timeout: self.timeout,
        }
    }

    /// Records the timeout in milliseconds, overwriting any earlier value.
    /// No bound on the value is enforced.
    pub fn timeout(self, timeout: u32) -> (r: Self)
        ensures
            r == self.with_timeout(timeout),
    {
        ServerBuilder {
            host: self.host,
            port: self.port,
            tls: self.tls,
            hot_reload: self.hot_reload,
            timeout: Some(timeout),
        }
    }

    /// Finalization: materializes the configuration, filling in the defaults
    /// for the optional fields that were never set. The builder is only
    /// borrowed, so finalizing has no effect on it and may be repeated.
    pub fn build(&self) -> (s: Server)
        ensures
            s == self.built(),
    {
        Server {
            host: self.host.clone(),
            port: self.port,
            tls: match &self.tls {
                Some(cert) => Some(cert.clone()),
                None => None,
            },
            hot_reload: match self.hot_reload {
                Some(flag) => flag,
                None => false,
            },
            timeout: match self.timeout {
                Some(millis) => millis,
                None => DEFAULT_TIMEOUT_MILLIS,
            },
        }
    }
}

/// Default-filling: a builder on which no setter was ever called finalizes
/// into a configuration with no secure-transport material, hot reload off,
/// and the default timeout, under the host and port it was created with.
pub proof fn lemma_default_filling(host: String, port: u16)
    ensures
        ServerBuilder::init(host, port).built() == (Server {
            host,
            port,
            tls: None,
            hot_reload: false,
            timeout: DEFAULT_TIMEOUT_MILLIS,
        }),
{
}

/// Overwrite-last-wins: calling the same setter twice leaves the builder
/// exactly as if only the second call had been made.
pub proof fn lemma_overwrite_last_wins(
    b: ServerBuilder,
    cert1: TLSCert,
    cert2: TLSCert,
    flag1: bool,
    flag2: bool,
    millis1: u32,
    millis2: u32,
)
    ensures
        b.with_tls(cert1).with_tls(cert2) == b.with_tls(cert2),
        b.with_hot_reload(flag1).with_hot_reload(flag2) == b.with_hot_reload(flag2),
        b.with_timeout(millis1).with_timeout(millis2) == b.with_timeout(millis2),
{
}

/// Field preservation: no setter touches the host or the port, and
/// finalization copies both unchanged, so the finished configuration carries
/// exactly the values handed to `Server::new`. A well-formed builder
/// finalizes into a well-formed configuration.
pub proof fn lemma_field_preservation(b: ServerBuilder, cert: TLSCert, flag: bool, millis: u32)
    ensures
        b.built().host == b.host,
        b.built().port == b.port,
        b.with_tls(cert).host == b.host,
        b.with_tls(cert).port == b.port,
        b.with_hot_reload(flag).host == b.host,
        b.with_hot_reload(flag).port == b.port,
        b.with_timeout(millis).host == b.host,
        b.with_timeout(millis).port == b.port,
        b.wf() ==> b.built().wf(),
{
}

/// Idempotent finalize: two finalizations of one builder, with no mutation in
/// between, produce equal configurations.
pub proof fn lemma_idempotent_finalize(b: ServerBuilder, s1: Server, s2: Server)
    requires
        s1 == b.built(),
        s2 == b.built(),
    ensures
        s1 == s2,
{
}

/// Commutativity across distinct fields: setters for different optional
/// fields may run in either order without changing the resulting builder,
/// and so without changing the finished configuration.
pub proof fn lemma_setter_order_commutes(b: ServerBuilder, cert: TLSCert, flag: bool, millis: u32)
    ensures
        b.with_tls(cert).with_hot_reload(flag) == b.with_hot_reload(flag).with_tls(cert),
        b.with_tls(cert).with_timeout(millis) == b.with_timeout(millis).with_tls(cert),
        b.with_hot_reload(flag).with_timeout(millis) == b.with_timeout(millis).with_hot_reload(
            flag,
        ),
{
}

} // verus!
