//! The strict version-1 configuration of one reference agent.

use crate::agent::AgentConfig;
use crate::assertion;
use crate::assertion::{BrokerAssertionError, BrokerAssertionVerifier};
use crate::catalog::ArtifactCatalog;
use crate::display;
use crate::identity::{
    ConnectionView, CredentialFiles, CredentialFilesView, CredentialGeneration, DeviceIdentity,
    IdentityView, MqttConnectionConfig, Uuid,
};
use crate::model::{
    CredentialRevision, FenceEpoch, Generation, InstalledCredentialPosition, PositionView,
};
use crate::nonzero::{NonZeroU32, NonZeroUsize};
use crate::text;
use std::path::PathBuf;
use vstd::prelude::*;
use vstd::string::*;

verus! {

#[derive(Clone, Copy, Debug, PartialEq, Eq, Structural)]
pub enum ConfigError {
    Unavailable,
    InvalidJson,
    UnsupportedSchema,
    MissingBaseDirectory,
    InvalidIdentity,
    ClientIdentityMismatch,
    InvalidDesiredGeneration,
    InvalidFenceEpoch,
    InvalidCredentialRevision,
    InvalidSessionExpiry,
    InvalidRequestCapacity,
    InvalidBrokerAssertionKey,
    InvalidMqtt,
}

impl ConfigError {
    /// The text that describes the failure.
    pub open spec fn message(self) -> Seq<char> {
        match self {
            ConfigError::Unavailable => "reference agent configuration is unavailable"@,
            ConfigError::InvalidJson => "reference agent configuration JSON is invalid"@,
            ConfigError::UnsupportedSchema =>
                "reference agent configuration schema is unsupported"@,
            ConfigError::MissingBaseDirectory =>
                "reference agent configuration path has no parent"@,
            ConfigError::InvalidIdentity => "reference agent identity is invalid"@,
            ConfigError::ClientIdentityMismatch =>
                "MQTT client identity does not match the configured device"@,
            ConfigError::InvalidDesiredGeneration => "initial desired generation is invalid"@,
            ConfigError::InvalidFenceEpoch => "initial fence epoch is invalid"@,
            ConfigError::InvalidCredentialRevision => "initial credential revision is invalid"@,
            ConfigError::InvalidSessionExpiry => "MQTT session expiry is invalid"@,
            ConfigError::InvalidRequestCapacity => "MQTT request capacity is invalid"@,
            ConfigError::InvalidBrokerAssertionKey =>
                "MQTT broker assertion public key is invalid"@,
            ConfigError::InvalidMqtt => "MQTT connection configuration is invalid"@,
        }
    }
}

impl core::fmt::Display for ConfigError {
    fn fmt(&self, formatter: &mut core::fmt::Formatter<'_>) -> (r: Result<(), core::fmt::Error>)
        ensures
            r is Ok ==> display::wrote(*old(formatter), *final(formatter), self.message()),
    {
        formatter.write_str(
            match self {
                ConfigError::Unavailable => "reference agent configuration is unavailable",
                ConfigError::InvalidJson => "reference agent configuration JSON is invalid",
                ConfigError::UnsupportedSchema =>
                    "reference agent configuration schema is unsupported",
                ConfigError::MissingBaseDirectory =>
                    "reference agent configuration path has no parent",
                ConfigError::InvalidIdentity => "reference agent identity is invalid",
                ConfigError::ClientIdentityMismatch =>
                    "MQTT client identity does not match the configured device",
                ConfigError::InvalidDesiredGeneration => "initial desired generation is invalid",
                ConfigError::InvalidFenceEpoch => "initial fence epoch is invalid",
                ConfigError::InvalidCredentialRevision => "initial credential revision is invalid",
                ConfigError::InvalidSessionExpiry => "MQTT session expiry is invalid",
                ConfigError::InvalidRequestCapacity => "MQTT request capacity is invalid",
                ConfigError::InvalidBrokerAssertionKey =>
                    "MQTT broker assertion public key is invalid",
                ConfigError::InvalidMqtt => "MQTT connection configuration is invalid",
            },
        )
    }
}

impl std::error::Error for ConfigError {

}

#[derive(Debug)]
pub struct MqttConfig {
    pub host: String,
    pub port: u16,
    pub client_id: String,
    pub session_expiry_seconds: u32,
    pub request_capacity: usize,
    pub broker_assertion_public_key: String,
}

#[derive(Debug)]
pub struct InitialConfig {
    pub desired_generation: u64,
    pub fence_epoch: u64,
    pub credential_revision: u64,
}

/// The configuration document, without its paths.
#[derive(Debug)]
pub struct ConfigV1 {
    pub schema_version: u8,
    pub tenant_id: Uuid,
    pub device_id: Uuid,
    pub credential_generation: u64,
    pub mqtt: MqttConfig,
    pub initial: InitialConfig,
}

/// The paths of a configuration document, resolved from its own directory.
#[derive(Debug)]
pub struct ConfigPaths {
    pub state_directory: PathBuf,
    pub artifact_catalog: PathBuf,
    pub ca_certificate: PathBuf,
    pub certificate_chain: PathBuf,
    pub private_key: PathBuf,
}

impl ConfigV1 {
    pub open spec fn identity(self) -> IdentityView {
        IdentityView {
            tenant: self.tenant_id@,
            device: self.device_id@,
            credential_generation: self.credential_generation,
        }
    }

    pub open spec fn connection(self) -> ConnectionView {
        ConnectionView {
            host: self.mqtt.host@,
            port: self.mqtt.port,
            client_id: self.mqtt.client_id@,
            session_expiry_seconds: self.mqtt.session_expiry_seconds,
            request_capacity: self.mqtt.request_capacity,
        }
    }

    pub open spec fn position(self) -> PositionView {
        PositionView {
            desired_generation: self.initial.desired_generation,
            fence_epoch: self.initial.fence_epoch,
            credential_revision: self.initial.credential_revision,
        }
    }

    /// The first thing that is wrong with the document, given whether its
    /// directory is known and whether its broker key can be used.
    pub open spec fn error(self, has_base: bool, has_key: bool) -> Option<ConfigError> {
        if self.schema_version != 1 {
            Some(ConfigError::UnsupportedSchema)
        } else if !has_base {
            Some(ConfigError::MissingBaseDirectory)
        } else if self.credential_generation == 0 || self.tenant_id@ == 0 || self.device_id@ == 0 {
            Some(ConfigError::InvalidIdentity)
        } else if self.mqtt.client_id@ != self.identity().mqtt_client_id() {
            Some(ConfigError::ClientIdentityMismatch)
        } else if self.mqtt.session_expiry_seconds == 0 {
            Some(ConfigError::InvalidSessionExpiry)
        } else if self.initial.desired_generation == 0 {
            Some(ConfigError::InvalidDesiredGeneration)
        } else if self.initial.fence_epoch == 0 {
            Some(ConfigError::InvalidFenceEpoch)
        } else if self.initial.credential_revision == 0 {
            Some(ConfigError::InvalidCredentialRevision)
        } else if !has_key {
            Some(ConfigError::InvalidBrokerAssertionKey)
        } else if self.mqtt.request_capacity == 0 {
            Some(ConfigError::InvalidRequestCapacity)
        } else if self.connection().error() is Some {
            Some(ConfigError::InvalidMqtt)
        } else {
            None
        }
    }
}

/// Everything one agent process runs with.
#[derive(Debug)]
pub struct RuntimeConfig {
    pub agent: AgentConfig,
    pub mqtt: MqttConnectionConfig,
    pub assertion_verifier: BrokerAssertionVerifier,
}

impl RuntimeConfig {
    /// The runtime carries the document as it is, over the resolved paths.
    pub open spec fn carries(self, raw: ConfigV1, paths: ConfigPaths, key: Seq<u8>) -> bool {
        &&& self.agent.identity@ == raw.identity()
        &&& self.agent.state_directory == paths.state_directory
        &&& self.agent.catalog@ == paths.artifact_catalog
        &&& self.agent.initial_position@ == raw.position()
        &&& self.agent.initial_credentials@ == (CredentialFilesView {
            ca_certificate: paths.ca_certificate,
            certificate_chain: paths.certificate_chain,
            private_key: paths.private_key,
        })
        &&& self.agent.command_retention_seconds@ == raw.mqtt.session_expiry_seconds
        &&& self.mqtt@ == raw.connection()
        &&& self.assertion_verifier@ == key
    }

    /// Checks a document whose broker key was read already.
    pub fn with_verifier(
        raw: ConfigV1,
        paths: Option<ConfigPaths>,
        verifier: Result<BrokerAssertionVerifier, BrokerAssertionError>,
    ) -> (r: Result<Self, ConfigError>)
        ensures
            match raw.error(paths is Some, verifier is Ok) {
                Some(error) => r == Err::<Self, ConfigError>(error),
                None => r is Ok && r->Ok_0.carries(raw, paths->0, verifier->Ok_0@),
            },
    {
        if raw.schema_version != 1 {
            return Err(ConfigError::UnsupportedSchema);
        }
        let paths = match paths {
            Some(paths) => paths,
            None => {
                return Err(ConfigError::MissingBaseDirectory);
            },
        };
        let credential_generation = match CredentialGeneration::try_from(
            raw.credential_generation,
        ) {
            Ok(generation) => generation,
            Err(_) => {
                return Err(ConfigError::InvalidIdentity);
            },
        };
        let identity = match DeviceIdentity::try_new(
            raw.tenant_id,
            raw.device_id,
            credential_generation,
        ) {
            Ok(identity) => identity,
            Err(_) => {
                return Err(ConfigError::InvalidIdentity);
            },
        };
        if !text::same(raw.mqtt.client_id.as_str(), identity.mqtt_client_id().as_str()) {
            return Err(ConfigError::ClientIdentityMismatch);
        }
        let session_expiry = match NonZeroU32::new(raw.mqtt.session_expiry_seconds) {
            Some(seconds) => seconds,
            None => {
                return Err(ConfigError::InvalidSessionExpiry);
            },
        };
        let desired_generation = match Generation::try_from(raw.initial.desired_generation) {
            Ok(generation) => generation,
            Err(_) => {
                return Err(ConfigError::InvalidDesiredGeneration);
            },
        };
        let fence_epoch = match FenceEpoch::try_from(raw.initial.fence_epoch) {
            Ok(fence_epoch) => fence_epoch,
            Err(_) => {
                return Err(ConfigError::InvalidFenceEpoch);
            },
        };
        let revision = match CredentialRevision::try_from(raw.initial.credential_revision) {
            Ok(revision) => revision,
            Err(_) => {
                return Err(ConfigError::InvalidCredentialRevision);
            },
        };
        let agent = AgentConfig::new(
            identity,
            paths.state_directory,
            ArtifactCatalog::new(paths.artifact_catalog),
            InstalledCredentialPosition::new(desired_generation, fence_epoch, revision),
            CredentialFiles::new(
                paths.ca_certificate,
                paths.certificate_chain,
                paths.private_key,
            ),
            session_expiry,
        );
        let assertion_verifier = match verifier {
            Ok(verifier) => verifier,
            Err(_) => {
                return Err(ConfigError::InvalidBrokerAssertionKey);
            },
        };
        let request_capacity = match NonZeroUsize::new(raw.mqtt.request_capacity) {
            Some(capacity) => capacity,
            None => {
                return Err(ConfigError::InvalidRequestCapacity);
            },
        };
        match MqttConnectionConfig::new(
            raw.mqtt.host.as_str(),
            raw.mqtt.port,
            raw.mqtt.client_id.as_str(),
            session_expiry,
            request_capacity,
        ) {
            Ok(mqtt) => Ok(RuntimeConfig { agent, mqtt, assertion_verifier }),
            Err(_) => Err(ConfigError::InvalidMqtt),
        }
    }

    /// Checks a document and the directory it was read from.
    pub fn load(raw: ConfigV1, paths: Option<ConfigPaths>) -> (r: Result<Self, ConfigError>)
        ensures
            ({
                let key = assertion::broker_key(raw.mqtt.broker_assertion_public_key@);
                match raw.error(paths is Some, key is Some) {
                    Some(error) => r == Err::<Self, ConfigError>(error),
                    None => r is Ok && r->Ok_0.carries(raw, paths->0, key->0),
                }
            }),
    {
        let verifier = BrokerAssertionVerifier::from_base64(
            raw.mqtt.broker_assertion_public_key.as_str(),
        );
        Self::with_verifier(raw, paths, verifier)
    }
}

} // verus!
