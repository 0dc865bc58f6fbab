//! The handshake: one `ClientHello` answered by one `ServerHello`.

use crate::domain::{
    client_domain, domain_label, is_prefixed_random_domain, is_random_label, prefixed,
    random_label,
};
use crate::encoding::{encode_base64_url_safe_no_pad, sha256_digest};
use crate::ident::{ClientId, ReconnectToken, SecretKey};
use crate::version::ProtocolVersion;
use vstd::prelude::*;
use vstd::string::*;

verus! {

/// How a client presents itself.
#[derive(Clone, Debug)]
pub enum ClientType {
    /// With a credential.
    Auth { key: SecretKey },
    /// Without one.
    Anonymous,
}

/// The request that opens a control connection.
#[derive(Clone, Debug)]
pub struct ClientHello {
    /// Kept for peers that still expect it; its value means nothing.
    id: ClientId,
    pub sub_domain: Option<String>,
    pub client_type: ClientType,
    pub reconnect_token: Option<ReconnectToken>,
    version: Option<ProtocolVersion>,
}

impl ClientHello {
    /// The legacy identifier that the hello carries.
    pub closed spec fn legacy_id(&self) -> ClientId {
        self.id
    }

    /// The version that the hello names, if it names one.
    pub closed spec fn declared_version(&self) -> Option<ProtocolVersion> {
        self.version
    }

    /// The subdomain that the hello asks for, if it asks for one.
    pub closed spec fn requested_sub_domain(&self) -> Option<String> {
        self.sub_domain
    }

    /// How the client presents itself.
    pub closed spec fn kind(&self) -> ClientType {
        self.client_type
    }

    /// The reconnect token that the hello presents, if it presents one.
    pub closed spec fn token(&self) -> Option<ReconnectToken> {
        self.reconnect_token
    }

    /// Whether the fields go together: a reconnect token is only ever
    /// presented by an anonymous client.
    pub open spec fn compatible(client_type: ClientType, token: Option<ReconnectToken>) -> bool {
        token is Some ==> client_type is Anonymous
    }

    /// The invariant of a hello.
    pub open spec fn wf(&self) -> bool {
        Self::compatible(self.kind(), self.token())
    }

    /// The protocol version of the peer: the one it names, or
    /// `BeforeVersioning` when it names none.
    pub fn get_version(&self) -> (v: ProtocolVersion)
        ensures
            v == ProtocolVersion::effective(self.declared_version()),
            self.declared_version() is None ==> v == ProtocolVersion::BeforeVersioning,
    {
        match self.version {
            Some(v) => v,
            None => ProtocolVersion::BeforeVersioning,
        }
    }

    /// The version field as it stands in the hello.
    pub fn version(&self) -> (v: Option<ProtocolVersion>)
        ensures
            v == self.declared_version(),
    {
        self.version
    }

    /// The legacy identifier.
    pub fn id(&self) -> (id: &ClientId)
        ensures
            *id == self.legacy_id(),
    {
        &self.id
    }

    /// The hello of a fresh session, stamped with the current version.
    pub fn generate(sub_domain: Option<String>, typ: ClientType) -> (hello: ClientHello)
        ensures
            hello.requested_sub_domain() == sub_domain,
            hello.kind() == typ,
            hello.token() is None,
            hello.declared_version() == Some(ProtocolVersion::CURRENT),
            ClientId::is_generated(hello.legacy_id()@),
            hello.wf(),
    {
        ClientHello {
            id: ClientId::generate(),
            client_type: typ,
            sub_domain,
            reconnect_token: None,
            version: Some(ProtocolVersion::CURRENT),
        }
    }

    /// The hello of a client that resumes a session: anonymous, with the
    /// token, stamped with the current version.
    pub fn reconnect(reconnect_token: ReconnectToken) -> (hello: ClientHello)
        ensures
            hello.requested_sub_domain() is None,
            hello.kind() is Anonymous,
            hello.token() == Some(reconnect_token),
            hello.declared_version() == Some(ProtocolVersion::CURRENT),
            ClientId::is_generated(hello.legacy_id()@),
            hello.wf(),
    {
        ClientHello {
            id: ClientId::generate(),
            sub_domain: None,
            client_type: ClientType::Anonymous,
            reconnect_token: Some(reconnect_token),
            version: Some(ProtocolVersion::CURRENT),
        }
    }

    /// The hello that a peer sent, from its fields. A credential together
    /// with a reconnect token makes no hello.
    pub fn from_parts(
        id: ClientId,
        sub_domain: Option<String>,
        client_type: ClientType,
        reconnect_token: Option<ReconnectToken>,
        version: Option<ProtocolVersion>,
    ) -> (hello: Option<ClientHello>)
        ensures
            hello is Some <==> Self::compatible(client_type, reconnect_token),
            hello matches Some(h) ==> {
                &&& h.legacy_id() == id
                &&& h.requested_sub_domain() == sub_domain
                &&& h.kind() == client_type
                &&& h.token() == reconnect_token
                &&& h.declared_version() == version
                &&& h.wf()
            },
    {
        let clash = match (&client_type, &reconnect_token) {
            (ClientType::Auth { .. }, Some(_)) => true,
            _ => false,
        };
        if clash {
            None
        } else {
            Some(ClientHello { id, sub_domain, client_type, reconnect_token, version })
        }
    }
}

/// The answer to a `ClientHello`; each variant is final.
#[derive(Clone, Debug)]
pub enum ServerHello {
    Success { sub_domain: String, hostname: String, client_id: ClientId },
    SubDomainInUse,
    InvalidSubDomain,
    AuthFailed,
    Error(String),
}

impl ServerHello {
    /// A random domain for a session without identity: eight lowercase
    /// letters or digits.
    pub fn random_domain() -> (domain: String)
        ensures
            is_random_label(domain@),
    {
        random_label()
    }

    /// A random domain under a prefix.
    pub fn prefixed_random_domain(prefix: &str) -> (domain: String)
        ensures
            is_prefixed_random_domain(prefix@, domain@),
    {
        let label = Self::random_domain();
        prefixed(prefix, label.as_str())
    }

    /// The domain of a client on an account under a prefix. It depends on the
    /// client and the account alone, and on the prefix only as its literal
    /// beginning.
    pub fn prefixed_client_domain(prefix: &str, client_id: &ClientId, account_id: &str) -> (domain:
        String)
        ensures
            domain@ == client_domain(prefix@, client_id@, account_id@),
    {
        let mut input = String::from_str(client_id.as_str());
        input.append("||");
        input.append(account_id);
        proof {
            reveal_strlit("||");
            assert("||"@ =~= seq!['|', '|']);
        }
        let digest = sha256_digest(input.as_str().as_bytes());
        let encoded = encode_base64_url_safe_no_pad(digest.as_slice());
        let label = domain_label(encoded.as_str());
        prefixed(prefix, label.as_str())
    }
}

} // verus!
