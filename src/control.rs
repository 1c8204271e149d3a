//! Decisions of the HTTP control plane over the registry.
use vstd::prelude::*;

use crate::error::WasApiError;
use crate::messages::{OutboundFrame, WillowAction, WillowOtaStart};
use crate::registry::ConnectionRegistry;

verus! {

/// What `POST /client` asks a device to do.
#[derive(Clone, Copy, Debug, PartialEq, Eq)]
pub enum ApiClientAction {
    Config,
    Identify,
    Notify,
    Restart,
    Update,
}

pub open spec fn client_not_found_msg(hostname: Seq<char>) -> Seq<char> {
    "client with hostname "@ + hostname + " not found"@
}

pub open spec fn send_failed_msg(hostname: Seq<char>) -> Seq<char> {
    "failed to send command to client with hostname "@ + hostname
}

pub open spec fn action_unsupported_msg() -> Seq<char> {
    "action not implemented"@
}

/// Whether the control plane can carry out this action.
pub open spec fn supported_action(action: ApiClientAction) -> bool {
    action == ApiClientAction::Restart || action == ApiClientAction::Update
}

fn text_between(prefix: &str, middle: &str, suffix: &str) -> (r: String)
    ensures
        r@ == prefix@ + middle@ + suffix@,
{
    let mut s = String::from_str(prefix);
    s.append(middle);
    s.append(suffix);
    s
}

/// The frame that carries `action` to a device: `restart`, or the start of
/// a firmware update with no URL; `None` for the actions that the control
/// plane does not carry out.
pub fn client_action_frame(action: ApiClientAction) -> (r: Option<OutboundFrame>)
    ensures
        action == ApiClientAction::Restart ==> (r matches Some(OutboundFrame::Action(WillowAction::Restart))),
        action == ApiClientAction::Update ==> (r matches Some(
            OutboundFrame::Action(WillowAction::OtaStart(o)),
        ) && o.ota_url@.len() == 0),
        !supported_action(action) ==> r is None,
{
    match action {
        ApiClientAction::Restart => Some(OutboundFrame::Action(WillowAction::Restart)),
        ApiClientAction::Update => Some(
            OutboundFrame::Action(WillowAction::OtaStart(WillowOtaStart { ota_url: String::new() })),
        ),
        _ => None,
    }
}

/// Queues the frame that `client_action_frame` gives for `action` on the
/// outbound queue of the device that announced `hostname`, and hands back
/// that device's identity. An unknown hostname, or a device whose queue
/// refuses the frame, is an internal server error; an action that the
/// control plane does not carry out is a bad request, and nothing is queued.
pub fn post_client_action(reg: &ConnectionRegistry, hostname: &str, action: ApiClientAction) -> (r: Result<u128, WasApiError>)
    requires
        reg.wf(),
    ensures
        !reg.has_hostname(hostname@) ==> (r matches Err(WasApiError::InternalServerError(m))
            && m@ == client_not_found_msg(hostname@)),
        reg.has_hostname(hostname@) && !supported_action(action) ==> (r matches Err(
            WasApiError::BadRequestError(m),
        ) && m@ == action_unsupported_msg()),
        reg.has_hostname(hostname@) && supported_action(action) ==> (r is Ok || (r matches Err(
            WasApiError::InternalServerError(m),
        ) && m@ == send_failed_msg(hostname@))),
        r matches Ok(id) ==> reg.records().contains_key(id) && reg.records()[id].hostname == Some(hostname@),
{
    if reg.lookup_by_hostname(hostname).is_none() {
        return Err(WasApiError::InternalServerError(text_between("client with hostname ", hostname, " not found")));
    }
    let frame = match client_action_frame(action) {
        Some(f) => f,
        None => {
            return Err(WasApiError::BadRequestError(String::from_str("action not implemented")));
        },
    };
    match reg.send_to_hostname(hostname, frame) {
        Ok(id) => Ok(id),
        Err(_) => {
            let mut msg = String::from_str("failed to send command to client with hostname ");
            msg.append(hostname);
            Err(WasApiError::InternalServerError(msg))
        },
    }
}

/// Which stored configuration a `POST /config` is about.
#[derive(Clone, Copy, Debug, PartialEq, Eq)]
pub enum PostConfigType {
    Config,
    Nvs,
    Was,
}

/// What a `POST /config` request comes down to.
#[derive(Clone, Debug, PartialEq, Eq)]
pub enum ConfigPostPlan {
    /// Push the stored device configuration to the device with this hostname.
    ApplyConfig(String),
    /// Store the configuration in the body.
    SaveConfig,
    /// Push the stored non-volatile settings to the device with this hostname.
    ApplyNvs(String),
    /// Store the non-volatile settings in the body.
    SaveNvs,
    /// Nothing to do.
    Nothing,
    /// The server has no such configuration.
    Unsupported,
}

/// Decides a `POST /config`: with `apply` set to 1 the stored configuration
/// goes to the named device instead of the body being stored.
pub fn plan_config_post(config_type: PostConfigType, apply: u8, hostname: Option<String>, has_body: bool) -> (r: ConfigPostPlan)
    ensures
        config_type == PostConfigType::Was ==> r == ConfigPostPlan::Unsupported,
        config_type == PostConfigType::Config && apply == 1 ==> r == match hostname {
            Some(h) => ConfigPostPlan::ApplyConfig(h),
            None => ConfigPostPlan::Nothing,
        },
        config_type == PostConfigType::Nvs && apply == 1 ==> r == match hostname {
            Some(h) => ConfigPostPlan::ApplyNvs(h),
            None => ConfigPostPlan::Nothing,
        },
        config_type == PostConfigType::Config && apply != 1 ==> r == if has_body {
            ConfigPostPlan::SaveConfig
        } else {
            ConfigPostPlan::Nothing
        },
        config_type == PostConfigType::Nvs && apply != 1 ==> r == if has_body {
            ConfigPostPlan::SaveNvs
        } else {
            ConfigPostPlan::Nothing
        },
{
    match config_type {
        PostConfigType::Was => ConfigPostPlan::Unsupported,
        PostConfigType::Config => {
            if apply == 1 {
                match hostname {
                    Some(h) => ConfigPostPlan::ApplyConfig(h),
                    None => ConfigPostPlan::Nothing,
                }
            } else if has_body {
                ConfigPostPlan::SaveConfig
            } else {
                ConfigPostPlan::Nothing
            }
        },
        PostConfigType::Nvs => {
            if apply == 1 {
                match hostname {
                    Some(h) => ConfigPostPlan::ApplyNvs(h),
                    None => ConfigPostPlan::Nothing,
                }
            } else if has_body {
                ConfigPostPlan::SaveNvs
            } else {
                ConfigPostPlan::Nothing
            }
        },
    }
}

/// Which configuration a `GET /config` asks for.
#[derive(Clone, Copy, Debug, PartialEq, Eq)]
pub enum GetConfigType {
    Config,
    Nvs,
    Tz,
}

/// Where the answer to a `GET /config` comes from.
#[derive(Clone, Copy, Debug, PartialEq, Eq)]
pub enum ConfigSource {
    /// The default device configuration fetched at startup.
    DefaultConfig,
    /// The device configuration in the store.
    StoredConfig,
    /// The default non-volatile settings fetched at startup.
    DefaultNvs,
    /// The non-volatile settings in the store.
    StoredNvs,
    /// The time zone table fetched at startup.
    Timezones,
}

/// Decides a `GET /config`: defaults come from the data fetched at startup,
/// everything else from the store; time zones exist only as fetched data.
pub fn plan_config_get(config_type: GetConfigType, default: bool) -> (r: ConfigSource)
    ensures
        r == match config_type {
            GetConfigType::Config => if default {
                ConfigSource::DefaultConfig
            } else {
                ConfigSource::StoredConfig
            },
            GetConfigType::Nvs => if default {
                ConfigSource::DefaultNvs
            } else {
                ConfigSource::StoredNvs
            },
            GetConfigType::Tz => ConfigSource::Timezones,
        },
{
    match config_type {
        GetConfigType::Config => if default {
            ConfigSource::DefaultConfig
        } else {
            ConfigSource::StoredConfig
        },
        GetConfigType::Nvs => if default {
            ConfigSource::DefaultNvs
        } else {
            ConfigSource::StoredNvs
        },
        GetConfigType::Tz => ConfigSource::Timezones,
    }
}

} // verus!
