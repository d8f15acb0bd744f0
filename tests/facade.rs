use wallet_core::facade::{
    build_pub_info_for_ip_ext, calculate_cred_id_ext, create_encrypted_transfer_ext,
    create_genesis_account_ext, create_id_request_ext, create_pub_to_sec_ext,
    create_sec_to_pub_ext, decrypt_amounts_ext, failure_message,
    generate_unsigned_credential_ext, get_address_from_cred_id_ext,
    get_credential_deployment_details_ext, get_credential_deployment_info_ext, respond,
    Operation,
};

fn all_operations() -> Vec<Operation> {
    vec![
        Operation::BuildPublicInformationForIp,
        Operation::CreateIdRequest,
        Operation::GenerateUnsignedCredential,
        Operation::GetDeploymentInfo,
        Operation::GetDeploymentDetails,
        Operation::DecryptAmounts,
        Operation::TransferToPublic,
        Operation::TransferToEncrypted,
        Operation::EncryptedTransfer,
        Operation::CreateGenesisAccount,
        Operation::AddressFromCredId,
        Operation::CalculateCredId,
        Operation::GenerateBakerKeys,
    ]
}

#[test]
fn success_is_handed_back_unchanged() {
    let payload = "{\"credId\":\"a1b2\"}".to_string();
    assert_eq!(respond(Operation::CalculateCredId, Ok(payload.clone())), payload);
    assert_eq!(calculate_cred_id_ext(Ok(payload.clone())), payload);
}

#[test]
fn empty_success_stays_empty() {
    assert_eq!(decrypt_amounts_ext(Ok(String::new())), "");
}

#[test]
fn failure_message_exact_text() {
    assert_eq!(
        failure_message(Operation::CalculateCredId, "Cannot create CredId"),
        "unable to calculate credId due to: Cannot create CredId"
    );
    assert_eq!(
        failure_message(Operation::CreateIdRequest, ""),
        "unable to create request due to: "
    );
}

#[test]
fn every_operation_failure_is_prefixed() {
    for op in all_operations() {
        let r = respond(op, Err("Field ipInfo not present, but should be.".to_string()));
        assert!(r.starts_with("unable to "));
        assert!(r[10..].starts_with(op.action()));
        assert!(r.ends_with(" due to: Field ipInfo not present, but should be."));
    }
}

#[test]
fn each_entry_point_names_its_operation() {
    let e = || Err("bad input".to_string());
    assert_eq!(
        build_pub_info_for_ip_ext(e()),
        "unable to build PublicInformationForIP due to: bad input"
    );
    assert_eq!(create_id_request_ext(e()), "unable to create request due to: bad input");
    assert_eq!(
        generate_unsigned_credential_ext(e()),
        "unable to generate unsigned credential due to: bad input"
    );
    assert_eq!(
        get_credential_deployment_info_ext(e()),
        "unable to get credential due to: bad input"
    );
    assert_eq!(
        get_credential_deployment_details_ext(e()),
        "unable to get credential due to: bad input"
    );
    assert_eq!(decrypt_amounts_ext(e()), "unable to decrypt transactions due to: bad input");
    assert_eq!(
        create_sec_to_pub_ext(e()),
        "unable to create transfer to public due to: bad input"
    );
    assert_eq!(
        create_pub_to_sec_ext(e()),
        "unable to create transfer to encrypted data due to: bad input"
    );
    assert_eq!(
        create_encrypted_transfer_ext(e()),
        "unable to create encrypted transfer due to: bad input"
    );
    assert_eq!(
        create_genesis_account_ext(e()),
        "unable to create genesis account due to: bad input"
    );
    assert_eq!(
        get_address_from_cred_id_ext(e()),
        "unable to get address from credId due to: bad input"
    );
    assert_eq!(calculate_cred_id_ext(e()), "unable to calculate credId due to: bad input");
}

#[test]
fn same_outcome_same_answer() {
    let a = calculate_cred_id_ext(Ok("8f00".to_string()));
    let b = calculate_cred_id_ext(Ok("8f00".to_string()));
    assert_eq!(a, b);
}
