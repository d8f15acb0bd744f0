//! Every exposed operation answers with a single string: the serialized
//! result on success, or `"unable to <action> due to: <cause>"` on failure.
use vstd::prelude::*;
use vstd::string::StringExecFns;

verus! {

/// The operations exposed to callers, each with its own failure wording.
#[derive(Clone, Copy, Debug, PartialEq, Eq, Structural)]
pub enum Operation {
    BuildPublicInformationForIp,
    CreateIdRequest,
    GenerateUnsignedCredential,
    GetDeploymentInfo,
    GetDeploymentDetails,
    DecryptAmounts,
    TransferToPublic,
    TransferToEncrypted,
    EncryptedTransfer,
    CreateGenesisAccount,
    AddressFromCredId,
    CalculateCredId,
    GenerateBakerKeys,
}

/// The action that a failure message of `op` names.
pub open spec fn action_spec(op: Operation) -> Seq<char> {
    match op {
        Operation::BuildPublicInformationForIp => "build PublicInformationForIP"@,
        Operation::CreateIdRequest => "create request"@,
        Operation::GenerateUnsignedCredential => "generate unsigned credential"@,
        Operation::GetDeploymentInfo => "get credential"@,
        Operation::GetDeploymentDetails => "get credential"@,
        Operation::DecryptAmounts => "decrypt transactions"@,
        Operation::TransferToPublic => "create transfer to public"@,
        Operation::TransferToEncrypted => "create transfer to encrypted data"@,
        Operation::EncryptedTransfer => "create encrypted transfer"@,
        Operation::CreateGenesisAccount => "create genesis account"@,
        Operation::AddressFromCredId => "get address from credId"@,
        Operation::CalculateCredId => "calculate credId"@,
        Operation::GenerateBakerKeys => "generate baker keys"@,
    }
}

/// The text that opens every failure message.
pub open spec fn failure_head() -> Seq<char> {
    "unable to "@
}

/// The text between the action and the cause.
pub open spec fn failure_joint() -> Seq<char> {
    " due to: "@
}

/// The failure message of `op` for the given cause.
pub open spec fn failure_spec(op: Operation, cause: Seq<char>) -> Seq<char> {
    failure_head() + action_spec(op) + failure_joint() + cause
}

/// The string that `op` hands back for an outcome.
pub open spec fn response_spec(op: Operation, outcome: Result<String, String>) -> Seq<char> {
    match outcome {
        Ok(s) => s@,
        Err(e) => failure_spec(op, e@),
    }
}

impl Operation {
    /// The action that a failure message of this operation names.
    pub fn action(&self) -> (r: &'static str)
        ensures
            r@ == action_spec(*self),
    {
        match self {
            Operation::BuildPublicInformationForIp => "build PublicInformationForIP",
            Operation::CreateIdRequest => "create request",
            Operation::GenerateUnsignedCredential => "generate unsigned credential",
            Operation::GetDeploymentInfo => "get credential",
            Operation::GetDeploymentDetails => "get credential",
            Operation::DecryptAmounts => "decrypt transactions",
            Operation::TransferToPublic => "create transfer to public",
            Operation::TransferToEncrypted => "create transfer to encrypted data",
            Operation::EncryptedTransfer => "create encrypted transfer",
            Operation::CreateGenesisAccount => "create genesis account",
            Operation::AddressFromCredId => "get address from credId",
            Operation::CalculateCredId => "calculate credId",
            Operation::GenerateBakerKeys => "generate baker keys",
        }
    }
}

/// Describes a failure of `op` caused by `cause`.
pub fn failure_message(op: Operation, cause: &str) -> (r: String)
    ensures
        r@ == failure_spec(op, cause@),
{
    let mut r = String::from_str("unable to ");
    r.append(op.action());
    r.append(" due to: ");
    r.append(cause);
    r
}

/// The single string that `op` hands back: the serialized result itself,
/// or the failure message built from the cause.
pub fn respond(op: Operation, outcome: Result<String, String>) -> (r: String)
    ensures
        r@ == response_spec(op, outcome),
{
    match outcome {
        Ok(s) => s,
        Err(e) => failure_message(op, e.as_str()),
    }
}

/// Whenever an operation fails, whatever the cause, its answer opens with
/// `"unable to "` and goes on with the action of that operation.
pub proof fn lemma_failure_names_operation(op: Operation, outcome: Result<String, String>)
    requires
        outcome is Err,
    ensures
        ({
            let r = response_spec(op, outcome);
            let h = failure_head().len() as int;
            let a = action_spec(op).len() as int;
            &&& h + a <= r.len()
            &&& r.subrange(0, h) == failure_head()
            &&& r.subrange(h, h + a) == action_spec(op)
        }),
{
    let r = response_spec(op, outcome);
    let h = failure_head().len() as int;
    let a = action_spec(op).len() as int;
    let e = outcome->Err_0;
    assert(r == failure_head() + action_spec(op) + failure_joint() + e@);
    assert(r.subrange(0, h) =~= failure_head());
    assert(r.subrange(h, h + a) =~= action_spec(op));
}

/// The answer of the operation that builds the public information for the identity provider, given the serialized
/// result or the cause of its failure.
pub fn build_pub_info_for_ip_ext(outcome: Result<String, String>) -> (r: String)
    ensures
        r@ == response_spec(Operation::BuildPublicInformationForIp, outcome),
{
    respond(Operation::BuildPublicInformationForIp, outcome)
}

/// The answer of the operation that builds an identity object request, given the serialized
/// result or the cause of its failure.
pub fn create_id_request_ext(outcome: Result<String, String>) -> (r: String)
    ensures
        r@ == response_spec(Operation::CreateIdRequest, outcome),
{
    respond(Operation::CreateIdRequest, outcome)
}

/// The answer of the operation that builds an unsigned credential, given the serialized
/// result or the cause of its failure.
pub fn generate_unsigned_credential_ext(outcome: Result<String, String>) -> (r: String)
    ensures
        r@ == response_spec(Operation::GenerateUnsignedCredential, outcome),
{
    respond(Operation::GenerateUnsignedCredential, outcome)
}

/// The answer of the operation that builds the credential deployment info, given the serialized
/// result or the cause of its failure.
pub fn get_credential_deployment_info_ext(outcome: Result<String, String>) -> (r: String)
    ensures
        r@ == response_spec(Operation::GetDeploymentInfo, outcome),
{
    respond(Operation::GetDeploymentInfo, outcome)
}

/// The answer of the operation that builds the credential deployment details, given the serialized
/// result or the cause of its failure.
pub fn get_credential_deployment_details_ext(outcome: Result<String, String>) -> (r: String)
    ensures
        r@ == response_spec(Operation::GetDeploymentDetails, outcome),
{
    respond(Operation::GetDeploymentDetails, outcome)
}

/// The answer of the operation that builds the decrypted amounts, given the serialized
/// result or the cause of its failure.
pub fn decrypt_amounts_ext(outcome: Result<String, String>) -> (r: String)
    ensures
        r@ == response_spec(Operation::DecryptAmounts, outcome),
{
    respond(Operation::DecryptAmounts, outcome)
}

/// The answer of the operation that builds the data of a transfer to the public balance, given the serialized
/// result or the cause of its failure.
pub fn create_sec_to_pub_ext(outcome: Result<String, String>) -> (r: String)
    ensures
        r@ == response_spec(Operation::TransferToPublic, outcome),
{
    respond(Operation::TransferToPublic, outcome)
}

/// The answer of the operation that builds the data of a transfer to the encrypted balance, given the serialized
/// result or the cause of its failure.
pub fn create_pub_to_sec_ext(outcome: Result<String, String>) -> (r: String)
    ensures
        r@ == response_spec(Operation::TransferToEncrypted, outcome),
{
    respond(Operation::TransferToEncrypted, outcome)
}

/// The answer of the operation that builds the data of an encrypted transfer, given the serialized
/// result or the cause of its failure.
pub fn create_encrypted_transfer_ext(outcome: Result<String, String>) -> (r: String)
    ensures
        r@ == response_spec(Operation::EncryptedTransfer, outcome),
{
    respond(Operation::EncryptedTransfer, outcome)
}

/// The answer of the operation that builds a genesis account, given the serialized
/// result or the cause of its failure.
pub fn create_genesis_account_ext(outcome: Result<String, String>) -> (r: String)
    ensures
        r@ == response_spec(Operation::CreateGenesisAccount, outcome),
{
    respond(Operation::CreateGenesisAccount, outcome)
}

/// The answer of the operation that builds the account address of a credential identifier, given the serialized
/// result or the cause of its failure.
pub fn get_address_from_cred_id_ext(outcome: Result<String, String>) -> (r: String)
    ensures
        r@ == response_spec(Operation::AddressFromCredId, outcome),
{
    respond(Operation::AddressFromCredId, outcome)
}

/// The answer of the operation that builds a credential identifier, given the serialized
/// result or the cause of its failure.
pub fn calculate_cred_id_ext(outcome: Result<String, String>) -> (r: String)
    ensures
        r@ == response_spec(Operation::CalculateCredId, outcome),
{
    respond(Operation::CalculateCredId, outcome)
}

} // verus!
