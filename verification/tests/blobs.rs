use audit_app::blobs::{
    open_blob, prepare_blob_write, relative_blob_path, resolve_engagement_key, seal_blob, unwrap_engagement_key,
    wrap_engagement_key, EngagementKey,
};
use audit_app::error::AppError;

#[test]
fn blob_path_shards_by_id_prefix() {
    assert_eq!(relative_blob_path("eng-1", "0190abcd"), "blobs/eng-1/01/0190abcd.bin");
    assert_eq!(relative_blob_path("eng-1", "x"), "blobs/eng-1/00/x.bin");
}

#[test]
fn prepared_blob_reads_back_as_written() {
    let key = [7u8; 32];
    let plaintext = b"employee_id,email\n42,simba@example.com\n";
    let w = prepare_blob_write("eng-b1", &key, plaintext).unwrap();
    assert_eq!(w.plaintext_size, plaintext.len() as i64);
    assert_eq!(w.sha256_plaintext.len(), 64);
    assert_eq!(w.auth_tag.len(), 16);
    assert_eq!(w.ciphertext.len(), plaintext.len());
    assert_eq!(w.id.len(), 36);
    assert_eq!(w.relative_path, format!("blobs/eng-b1/{}/{}.bin", &w.id[..2], w.id));
    // plaintext must not appear in the stored bytes
    assert!(!w.ciphertext.windows(5).any(|x| x == b"simba"));
    let back = open_blob(&key, &w.nonce, &w.ciphertext, &w.auth_tag).unwrap();
    assert_eq!(back, plaintext.to_vec());
}

#[test]
fn open_blob_rejects_bad_parts() {
    let key = [1u8; 32];
    let nonce = [2u8; 12];
    let sealed = seal_blob(&key, &nonce, b"hello").unwrap();
    assert_eq!(
        open_blob(&key, &nonce[..11], &sealed.ciphertext, &sealed.auth_tag).unwrap_err(),
        AppError::Crypto("blob nonce length".into())
    );
    assert_eq!(
        open_blob(&key, &nonce, &sealed.ciphertext, &sealed.auth_tag[..15]).unwrap_err(),
        AppError::Crypto("blob auth tag length".into())
    );
    let mut tag = sealed.auth_tag.clone();
    tag[0] ^= 0xff;
    assert!(matches!(open_blob(&key, &nonce, &sealed.ciphertext, &tag).unwrap_err(), AppError::Crypto(_)));
    assert!(matches!(open_blob(&[9u8; 32], &nonce, &sealed.ciphertext, &sealed.auth_tag), Err(AppError::Crypto(_))));
}

#[test]
fn wrapped_engagement_key_unwraps_to_itself() {
    let master = [3u8; 32];
    let key = [4u8; 32];
    let wrapped = wrap_engagement_key(&master, &[8u8; 12], &key).unwrap();
    assert_eq!(wrapped.len(), 12 + 32 + 16);
    assert_eq!(&wrapped[..12], &[8u8; 12]);
    assert_eq!(unwrap_engagement_key(&master, &Some(wrapped.clone())).unwrap(), key);
    assert!(matches!(unwrap_engagement_key(&[0u8; 32], &Some(wrapped)), Err(AppError::Crypto(_))));
}

#[test]
fn unwrap_rejects_missing_or_short_entries() {
    let master = [3u8; 32];
    assert_eq!(
        unwrap_engagement_key(&master, &None).unwrap_err(),
        AppError::Crypto("keychain entry missing wrapped key".into())
    );
    assert_eq!(
        unwrap_engagement_key(&master, &Some(vec![0u8; 59])).unwrap_err(),
        AppError::Crypto("engagement key blob too short".into())
    );
}

#[test]
fn engagement_key_is_generated_once_then_unwrapped() {
    let master = [9u8; 32];
    let (key, wrapped) = match resolve_engagement_key(&master, &None).unwrap() {
        EngagementKey::Fresh { key, wrapped } => (key, wrapped),
        EngagementKey::Existing(_) => panic!("first write must generate a key"),
    };
    assert_eq!(wrapped.len(), 60);
    match resolve_engagement_key(&master, &Some(wrapped)).unwrap() {
        EngagementKey::Existing(k) => assert_eq!(k, key),
        EngagementKey::Fresh { .. } => panic!("second write must reuse the key"),
    }
}
