//! The errors that the decisions of this library can end in.
use vstd::prelude::*;
use crate::access::SecurityGroup;

verus! {

/// Why an operation stopped. Each variant carries the values that its
/// message names.
#[derive(Debug, Clone)]
pub enum ClaireError {
    /// No security group matched the given name.
    NoSecurityGroups(String),
    /// More than one security group matched the given name; the groups that matched.
    MultipleSecurityGroups(String, Vec<SecurityGroup>),
    /// The list of security groups was empty.
    FirstSecurityGroupNotSet,
    /// The investigation state machine has no history events.
    NoEvents,
    /// No state machine is called `claire_investigation`.
    StateMachineNotFound,
    /// The last history event has no details object.
    NoInvestigationDetails,
    /// The create-extractor lambda returned no payload.
    NoExtractorResponse,
    /// The payload of the create-extractor lambda is not JSON.
    ReplyNotJson,
    /// The create-extractor lambda reported an error (its JSON text).
    CreateInstanceFailed(String),
    /// The extractor id in the lambda reply is not a string.
    ExtractorIdNotText,
    /// The lambda reply has neither an error nor an extractor id (its JSON text).
    UnexpectedExtractorResponse(String),
    /// No instance with this id was described.
    InstanceNotFound(String),
    /// The instance has no availability zone.
    MissingAvailabilityZone,
    /// No volumes were described for these ids (joined with ", ").
    NoVolumes(String),
    /// The instance carries no tags.
    InstanceNotTagged(String),
    /// The `InvestigationId` tag has no value.
    InvestigationIdNotSet,
    /// The instance has no `InvestigationId` tag.
    NoInvestigationForInstance(String),
    /// No instance-profile association was described for this instance.
    NoProfileAssociations(String),
    /// The list of profile associations was empty.
    NoFirstProfileAssociation,
    /// A listed investigation folder has no prefix.
    PrefixMissing,
    /// The date part of an investigation id could not be parsed.
    BadInvestigationDate(String),
    /// Several investigations match the prefix; the ids are joined with newlines.
    MultipleInvestigations(String, String),
    /// No investigation matches the prefix.
    InvestigationNotFound(String),
    /// The execution ARN is not among the alert tags.
    ExecutionArnNotFound,
    /// The instance is not being investigated.
    InstanceNotInvestigated(String),
    /// The instance has no id.
    InstanceMissingId,
    /// The instance has no VPC id.
    InstanceMissingVpcId,
    /// The `claire_locked_down` security group has no id.
    LockedGroupMissingId,
    /// The extractor instance has no id.
    ExtractorMissingId,
    /// The instance has no state.
    InstanceMissingState,
    /// The instance state has no name.
    InstanceStateMissingName,
    /// The instance has no public IP address.
    NoPublicIp(String),
    /// The instance profile has no ARN.
    ProfileMissingArn,
    /// The instance profile ARN has no `/`.
    ProfileArnMissingSlash,
    /// The profile association has no id.
    ProfileAssociationMissingId,
    /// The instance has no tags, so the removed profile is unknown.
    NoTagsForRemovedProfile,
    /// The instance has no `claire_removed_profile` tag.
    RemovedProfileTagMissing,
    /// The `claire_removed_profile` tag has no value.
    RemovedProfileTagEmpty,
    /// The profile has no roles whose tokens could be invalidated.
    NoRolesToInvalidate,
    /// The user did not confirm the changes.
    Aborted,
}

} // verus!
