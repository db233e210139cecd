use broker_server::security::{
    cache_file_name, certificate_subjects, encoding_of, fresh_identity, generate_identity,
    init_security, supplied_chain, supplied_key, CacheFile, ConfigurationError, Encoding,
    FileRead, Identity, IdentityError, PersistStep, ProvisionAction, ProvisionEvent, Provisioner,
    SuppliedFile, CERTIFICATE_FILE, PRIVATE_KEY_FILE,
};

fn chain_bytes(chain: &quinn::CertificateChain) -> Vec<Vec<u8>> {
    chain.iter().map(|certificate| certificate.0.clone()).collect()
}

fn pem(label: &str, base64: &str) -> Vec<u8> {
    format!("-----BEGIN {}-----\n{}\n-----END {}-----\n", label, base64, label).into_bytes()
}

fn named(path: &'static str, extension: Option<&str>) -> Option<SuppliedFile<&'static str>> {
    Some(SuppliedFile { path, extension: extension.map(|e| e.to_string()) })
}

fn from_cache() -> Provisioner<&'static str> {
    match init_security(None, None) {
        Ok((provisioner, ProvisionAction::ReadCached(CacheFile::Certificate))) => provisioner,
        other => panic!("unexpected start {:?}", other),
    }
}

fn generating() -> (Provisioner<&'static str>, ProvisionAction<&'static str>) {
    from_cache().on_event(ProvisionEvent::Read(FileRead::Missing))
}

fn completed(action: ProvisionAction<&'static str>) -> Result<Identity, IdentityError> {
    match action {
        ProvisionAction::Complete(result) => result,
        other => panic!("expected the end of the provisioning, got {:?}", other),
    }
}

fn failure(action: ProvisionAction<&'static str>) -> IdentityError {
    match completed(action) {
        Err(error) => error,
        Ok(identity) => panic!("expected a failure, got {:?}", identity),
    }
}

fn written(action: ProvisionAction<&'static str>, file: CacheFile) -> Vec<u8> {
    match action {
        ProvisionAction::WriteCached(to, contents) if to == file => contents,
        other => panic!("expected a write of {:?}, got {:?}", file, other),
    }
}

/// Runs a provisioning from the cache against a cache directory held in memory.
fn provision(cache: &mut (Option<Vec<u8>>, Option<Vec<u8>>)) -> (Identity, usize) {
    let (mut provisioner, mut action) = init_security::<&'static str>(None, None).unwrap();
    let mut writes = 0;
    loop {
        let event = match action {
            ProvisionAction::ReadCached(file) => {
                let contents = match file {
                    CacheFile::Certificate => &cache.0,
                    CacheFile::PrivateKey => &cache.1,
                };
                ProvisionEvent::Read(match contents {
                    Some(contents) => FileRead::Found(contents.clone()),
                    None => FileRead::Missing,
                })
            }
            ProvisionAction::CreateDirectory => ProvisionEvent::Stored,
            ProvisionAction::WriteCached(file, contents) => {
                writes += 1;
                match file {
                    CacheFile::Certificate => cache.0 = Some(contents),
                    CacheFile::PrivateKey => cache.1 = Some(contents),
                }
                ProvisionEvent::Stored
            }
            ProvisionAction::Complete(result) => return (result.unwrap(), writes),
            other => panic!("unexpected action {:?}", other),
        };
        let next = provisioner.on_event(event);
        provisioner = next.0;
        action = next.1;
    }
}

#[test]
fn both_files_named_begin_with_the_key_file() {
    match init_security(named("key.pem", Some("pem")), named("cert.der", Some("der"))) {
        Ok((provisioner, ProvisionAction::ReadSupplied(path))) => {
            assert_eq!(path, "key.pem");
            assert!(!provisioner.is_over());
        }
        other => panic!("unexpected start {:?}", other),
    }
}

#[test]
fn no_file_named_begins_with_the_cached_certificate() {
    match init_security::<&str>(None, None) {
        Ok((provisioner, ProvisionAction::ReadCached(file))) => {
            assert_eq!(file, CacheFile::Certificate);
            assert!(!provisioner.is_over());
        }
        other => panic!("unexpected start {:?}", other),
    }
}

#[test]
fn a_key_without_a_certificate_is_refused() {
    match init_security(named("key.pem", Some("pem")), None) {
        Err(error) => assert_eq!(error, ConfigurationError::KeyWithoutCertificate),
        Ok(start) => panic!("unexpected start {:?}", start),
    }
}

#[test]
fn a_certificate_without_a_key_is_refused() {
    match init_security(None, named("cert.pem", Some("pem"))) {
        Err(error) => assert_eq!(error, ConfigurationError::CertificateWithoutKey),
        Ok(start) => panic!("unexpected start {:?}", start),
    }
}

#[test]
fn supplied_der_files_make_the_identity() {
    let (provisioner, _) =
        init_security(named("key.der", Some("der")), named("cert.der", Some("der"))).unwrap();
    let (provisioner, action) =
        provisioner.on_event(ProvisionEvent::Read(FileRead::Found(vec![1, 2, 3])));
    match action {
        ProvisionAction::ReadSupplied(path) => assert_eq!(path, "cert.der"),
        other => panic!("unexpected action {:?}", other),
    }
    let (provisioner, action) =
        provisioner.on_event(ProvisionEvent::Read(FileRead::Found(vec![4, 5, 6])));
    let identity = completed(action).unwrap();
    assert_eq!(chain_bytes(&identity.certificate_chain), vec![vec![4u8, 5, 6]]);
    assert!(provisioner.is_over());
}

#[test]
fn supplied_files_are_decoded_as_their_extensions_say() {
    let (provisioner, _) =
        init_security(named("key.der", Some("der")), named("chain.pem", Some("pem"))).unwrap();
    let (provisioner, _) =
        provisioner.on_event(ProvisionEvent::Read(FileRead::Found(b"not pem".to_vec())));
    let mut chain = pem("CERTIFICATE", "AQID");
    chain.extend(pem("CERTIFICATE", "BAUG"));
    let (_, action) = provisioner.on_event(ProvisionEvent::Read(FileRead::Found(chain)));
    let identity = completed(action).unwrap();
    assert_eq!(chain_bytes(&identity.certificate_chain), vec![vec![1u8, 2, 3], vec![4u8, 5, 6]]);
}

#[test]
fn a_supplied_key_without_an_extension_is_pem() {
    let (provisioner, _) = init_security(named("key", None), named("cert", None)).unwrap();
    let (provisioner, action) =
        provisioner.on_event(ProvisionEvent::Read(FileRead::Found(vec![1, 2, 3])));
    assert_eq!(failure(action), IdentityError::KeyMalformed);
    assert!(provisioner.is_over());
}

#[test]
fn an_unreadable_supplied_key_ends_the_provisioning() {
    for read in [FileRead::Missing, FileRead::Failed("permission denied".to_string())] {
        let (provisioner, _) =
            init_security(named("key.der", Some("der")), named("cert.der", Some("der"))).unwrap();
        let (provisioner, action) = provisioner.on_event(ProvisionEvent::Read(read));
        assert_eq!(failure(action), IdentityError::KeyUnreadable);
        assert!(provisioner.is_over());
    }
}

#[test]
fn an_unreadable_supplied_chain_ends_the_provisioning() {
    for read in [FileRead::Missing, FileRead::Failed("permission denied".to_string())] {
        let (provisioner, _) =
            init_security(named("key.der", Some("der")), named("cert.der", Some("der"))).unwrap();
        let (provisioner, _) =
            provisioner.on_event(ProvisionEvent::Read(FileRead::Found(vec![1])));
        let (provisioner, action) = provisioner.on_event(ProvisionEvent::Read(read));
        assert_eq!(failure(action), IdentityError::ChainUnreadable);
        assert!(provisioner.is_over());
    }
}

#[test]
fn a_supplied_key_without_any_certificate_ends_the_provisioning() {
    let (provisioner, _) =
        init_security(named("key.der", Some("der")), named("cert.pem", Some("pem"))).unwrap();
    let (provisioner, _) = provisioner.on_event(ProvisionEvent::Read(FileRead::Found(vec![1])));
    let read = FileRead::Found(pem("PRIVATE KEY", "AQID"));
    let (provisioner, action) = provisioner.on_event(ProvisionEvent::Read(read));
    assert_eq!(failure(action), IdentityError::ChainMalformed);
    assert!(provisioner.is_over());
}

#[test]
fn a_malformed_supplied_chain_ends_the_provisioning() {
    let (provisioner, _) =
        init_security(named("key.der", Some("der")), named("cert.pem", Some("pem"))).unwrap();
    let (provisioner, _) = provisioner.on_event(ProvisionEvent::Read(FileRead::Found(vec![1])));
    let read = FileRead::Found(pem("CERTIFICATE", "!!!"));
    let (_, action) = provisioner.on_event(ProvisionEvent::Read(read));
    assert_eq!(failure(action), IdentityError::ChainMalformed);
}

#[test]
fn the_cache_files_have_fixed_names() {
    assert_eq!(CERTIFICATE_FILE, "cert.der");
    assert_eq!(PRIVATE_KEY_FILE, "key.der");
}

#[test]
fn the_der_extension_selects_der() {
    assert_eq!(encoding_of(Some("der".to_string())), Encoding::Der);
}

#[test]
fn any_other_extension_selects_pem() {
    for extension in ["pem", "crt", "key", "DER", "der ", "", "derr", "de"] {
        assert_eq!(encoding_of(Some(extension.to_string())), Encoding::Pem, "{:?}", extension);
    }
}

#[test]
fn no_extension_selects_pem() {
    assert_eq!(encoding_of(None), Encoding::Pem);
}

#[test]
fn a_der_key_is_taken_as_it_is() {
    assert!(supplied_key(FileRead::Found(vec![1, 2, 3]), Encoding::Der).is_ok());
    assert!(supplied_key(FileRead::Found(vec![]), Encoding::Der).is_ok());
}

#[test]
fn a_pem_key_is_decoded() {
    let file = pem("PRIVATE KEY", "AQID");
    assert!(supplied_key(FileRead::Found(file), Encoding::Pem).is_ok());
    let file = pem("RSA PRIVATE KEY", "AQID");
    assert!(supplied_key(FileRead::Found(file), Encoding::Pem).is_ok());
}

#[test]
fn a_pem_file_without_a_key_is_malformed() {
    let outcome = supplied_key(FileRead::Found(b"no key here\n".to_vec()), Encoding::Pem);
    assert_eq!(outcome.err(), Some(IdentityError::KeyMalformed));
    let outcome = supplied_key(FileRead::Found(vec![]), Encoding::Pem);
    assert_eq!(outcome.err(), Some(IdentityError::KeyMalformed));
    let outcome = supplied_key(FileRead::Found(pem("CERTIFICATE", "AQID")), Encoding::Pem);
    assert_eq!(outcome.err(), Some(IdentityError::KeyMalformed));
}

#[test]
fn a_pem_key_that_is_not_base64_is_malformed() {
    let outcome = supplied_key(FileRead::Found(pem("PRIVATE KEY", "!!!")), Encoding::Pem);
    assert_eq!(outcome.err(), Some(IdentityError::KeyMalformed));
}

#[test]
fn a_key_file_that_cannot_be_read_is_unreadable() {
    for encoding in [Encoding::Der, Encoding::Pem] {
        let outcome = supplied_key(FileRead::Missing, encoding);
        assert_eq!(outcome.err(), Some(IdentityError::KeyUnreadable));
        let outcome = supplied_key(FileRead::Failed("permission denied".to_string()), encoding);
        assert_eq!(outcome.err(), Some(IdentityError::KeyUnreadable));
    }
}

#[test]
fn a_der_chain_holds_the_one_certificate() {
    let chain = supplied_chain(FileRead::Found(vec![4, 5, 6]), Encoding::Der).unwrap();
    assert_eq!(chain_bytes(&chain), vec![vec![4u8, 5, 6]]);
}

#[test]
fn a_pem_chain_holds_every_certificate_in_order() {
    let mut file = pem("CERTIFICATE", "AQID");
    file.extend(pem("CERTIFICATE", "BAUG"));
    let chain = supplied_chain(FileRead::Found(file), Encoding::Pem).unwrap();
    assert_eq!(chain_bytes(&chain), vec![vec![1u8, 2, 3], vec![4u8, 5, 6]]);
}

#[test]
fn a_pem_chain_without_certificates_is_malformed() {
    for file in [b"nothing\n".to_vec(), vec![], pem("PRIVATE KEY", "AQID")] {
        let outcome = supplied_chain(FileRead::Found(file), Encoding::Pem);
        assert_eq!(outcome.err(), Some(IdentityError::ChainMalformed));
    }
}

#[test]
fn a_pem_chain_of_one_certificate_is_taken() {
    let chain =
        supplied_chain(FileRead::Found(pem("CERTIFICATE", "AQID")), Encoding::Pem).unwrap();
    assert_eq!(chain_bytes(&chain), vec![vec![1u8, 2, 3]]);
}

#[test]
fn a_pem_chain_that_is_not_base64_is_malformed() {
    let outcome = supplied_chain(FileRead::Found(pem("CERTIFICATE", "!!!")), Encoding::Pem);
    assert_eq!(outcome.err(), Some(IdentityError::ChainMalformed));
}

#[test]
fn a_chain_file_that_cannot_be_read_is_unreadable() {
    for encoding in [Encoding::Der, Encoding::Pem] {
        let outcome = supplied_chain(FileRead::Missing, encoding);
        assert_eq!(outcome.err(), Some(IdentityError::ChainUnreadable));
        let outcome = supplied_chain(FileRead::Failed("permission denied".to_string()), encoding);
        assert_eq!(outcome.err(), Some(IdentityError::ChainUnreadable));
    }
}

#[test]
fn the_generated_certificate_is_for_localhost() {
    assert_eq!(certificate_subjects(), vec!["localhost".to_string()]);
}

#[test]
fn a_fresh_identity_uses_the_bytes_it_stores() {
    let generated = fresh_identity(vec![1, 2, 3], vec![4, 5, 6]);
    assert_eq!(generated.certificate, vec![1, 2, 3]);
    assert_eq!(generated.private_key, vec![4, 5, 6]);
    assert_eq!(chain_bytes(&generated.identity.certificate_chain), vec![vec![1u8, 2, 3]]);
}

#[test]
fn a_generated_identity_uses_the_bytes_it_stores() {
    let generated = generate_identity().unwrap();
    assert!(!generated.certificate.is_empty());
    assert!(!generated.private_key.is_empty());
    assert_ne!(generated.certificate, generated.private_key);
    assert_eq!(
        chain_bytes(&generated.identity.certificate_chain),
        vec![generated.certificate.clone()]
    );
}

#[test]
fn two_generations_differ() {
    let first = generate_identity().unwrap();
    let second = generate_identity().unwrap();
    assert_ne!(first.private_key, second.private_key);
    assert_ne!(first.certificate, second.certificate);
}

#[test]
fn the_cache_file_names_belong_to_their_files() {
    assert_eq!(cache_file_name(CacheFile::Certificate), "cert.der");
    assert_eq!(cache_file_name(CacheFile::PrivateKey), "key.der");
}

#[test]
fn a_full_cache_is_reused() {
    let (provisioner, action) =
        from_cache().on_event(ProvisionEvent::Read(FileRead::Found(vec![1, 2])));
    match action {
        ProvisionAction::ReadCached(file) => assert_eq!(file, CacheFile::PrivateKey),
        other => panic!("unexpected action {:?}", other),
    }
    let (provisioner, action) =
        provisioner.on_event(ProvisionEvent::Read(FileRead::Found(vec![3, 4])));
    let identity = completed(action).unwrap();
    assert_eq!(chain_bytes(&identity.certificate_chain), vec![vec![1u8, 2]]);
    assert!(provisioner.is_over());
}

#[test]
fn a_missing_certificate_leads_to_a_generation() {
    let (provisioner, action) = generating();
    assert!(matches!(action, ProvisionAction::CreateDirectory));
    assert!(!provisioner.is_over());
}

#[test]
fn a_missing_key_leads_to_a_generation() {
    let (provisioner, _) =
        from_cache().on_event(ProvisionEvent::Read(FileRead::Found(vec![1, 2])));
    let (provisioner, action) = provisioner.on_event(ProvisionEvent::Read(FileRead::Missing));
    assert!(matches!(action, ProvisionAction::CreateDirectory));
    assert!(!provisioner.is_over());
}

#[test]
fn an_unreadable_cached_certificate_ends_the_provisioning() {
    let read = FileRead::Failed("permission denied".to_string());
    let (provisioner, action) = from_cache().on_event(ProvisionEvent::Read(read));
    assert_eq!(failure(action), IdentityError::CacheUnreadable("permission denied".to_string()));
    assert!(provisioner.is_over());
}

#[test]
fn an_unreadable_cached_key_ends_the_provisioning() {
    let (provisioner, _) =
        from_cache().on_event(ProvisionEvent::Read(FileRead::Found(vec![1, 2])));
    let read = FileRead::Failed("is a directory".to_string());
    let (provisioner, action) = provisioner.on_event(ProvisionEvent::Read(read));
    assert_eq!(failure(action), IdentityError::CacheUnreadable("is a directory".to_string()));
    assert!(provisioner.is_over());
}

#[test]
fn a_generated_identity_is_stored_before_it_is_used() {
    let (provisioner, action) = generating();
    assert!(matches!(action, ProvisionAction::CreateDirectory));
    let (provisioner, action) = provisioner.on_event(ProvisionEvent::Stored);
    let certificate = written(action, CacheFile::Certificate);
    let (provisioner, action) = provisioner.on_event(ProvisionEvent::Stored);
    let private_key = written(action, CacheFile::PrivateKey);
    assert!(!provisioner.is_over());
    let (provisioner, action) = provisioner.on_event(ProvisionEvent::Stored);
    let identity = completed(action).unwrap();
    assert!(provisioner.is_over());
    assert!(!certificate.is_empty());
    assert!(!private_key.is_empty());
    assert_eq!(chain_bytes(&identity.certificate_chain), vec![certificate]);
}

#[test]
fn a_generated_identity_is_accepted_by_the_tls_layer() {
    let generated = generate_identity().unwrap();
    let identity = generated.identity;
    let mut config = quinn::ServerConfigBuilder::default();
    assert!(config.certificate(identity.certificate_chain, identity.private_key).is_ok());
}

#[test]
fn a_key_that_is_none_is_not_accepted_by_the_tls_layer() {
    let generated = fresh_identity(vec![1, 2, 3], vec![4, 5, 6]);
    let identity = generated.identity;
    let mut config = quinn::ServerConfigBuilder::default();
    assert!(config.certificate(identity.certificate_chain, identity.private_key).is_err());
}

#[test]
fn an_identity_that_could_not_be_stored_is_not_used() {
    let steps =
        [PersistStep::CreateDirectory, PersistStep::WriteCertificate, PersistStep::WritePrivateKey];
    for (index, step) in steps.iter().enumerate() {
        let (mut provisioner, _) = generating();
        for _ in 0..index {
            provisioner = provisioner.on_event(ProvisionEvent::Stored).0;
        }
        let (provisioner, action) = provisioner.on_event(ProvisionEvent::StoreFailed);
        assert_eq!(failure(action), IdentityError::CacheUnwritable(*step));
        assert!(provisioner.is_over());
    }
}

#[test]
fn provisioning_events_out_of_place_change_nothing() {
    let (provisioner, action) = from_cache().on_event(ProvisionEvent::Stored);
    assert!(matches!(action, ProvisionAction::Ignore));
    let (provisioner, action) = provisioner.on_event(ProvisionEvent::StoreFailed);
    assert!(matches!(action, ProvisionAction::Ignore));
    let (_, action) = provisioner.on_event(ProvisionEvent::Read(FileRead::Found(vec![1])));
    assert!(matches!(action, ProvisionAction::ReadCached(CacheFile::PrivateKey)));
    let (provisioner, _) = generating();
    let (provisioner, action) = provisioner.on_event(ProvisionEvent::Read(FileRead::Missing));
    assert!(matches!(action, ProvisionAction::Ignore));
    let (_, action) = provisioner.on_event(ProvisionEvent::Stored);
    assert!(matches!(action, ProvisionAction::WriteCached(CacheFile::Certificate, _)));
}

#[test]
fn a_finished_provisioning_stays_finished() {
    let read = FileRead::Failed("permission denied".to_string());
    let (mut provisioner, _) = from_cache().on_event(ProvisionEvent::Read(read));
    let events = vec![
        ProvisionEvent::Read(FileRead::Found(vec![1])),
        ProvisionEvent::Read(FileRead::Missing),
        ProvisionEvent::Stored,
        ProvisionEvent::StoreFailed,
    ];
    for event in events {
        let (next, action) = provisioner.on_event(event);
        assert!(matches!(action, ProvisionAction::Ignore));
        assert!(next.is_over());
        provisioner = next;
    }
}

#[test]
fn provisioning_twice_reuses_the_first_identity() {
    let mut cache: (Option<Vec<u8>>, Option<Vec<u8>>) = (None, None);
    let (first, first_writes) = provision(&mut cache);
    let stored = cache.clone();
    let (second, second_writes) = provision(&mut cache);
    assert_eq!(first_writes, 2);
    assert_eq!(second_writes, 0);
    assert_eq!(cache, stored);
    assert_eq!(chain_bytes(&first.certificate_chain), chain_bytes(&second.certificate_chain));
    assert_eq!(Some(chain_bytes(&first.certificate_chain)[0].clone()), cache.0);
    assert!(cache.1.is_some());
}

#[test]
fn provisioning_with_half_a_cache_generates_anew() {
    let mut cache: (Option<Vec<u8>>, Option<Vec<u8>>) = (Some(vec![1, 2, 3]), None);
    let (first, writes) = provision(&mut cache);
    assert_eq!(writes, 2);
    assert_ne!(cache.0, Some(vec![1, 2, 3]));
    let (second, writes) = provision(&mut cache);
    assert_eq!(writes, 0);
    assert_eq!(chain_bytes(&first.certificate_chain), chain_bytes(&second.certificate_chain));
}
