use slangbucket::backend::{
    del_hash_kf, del_kv, del_sorted_kvs, get_hash_kfv, get_kv, get_sorted_kv, hash_k_id, set_hash_kfv, set_kv,
    set_sorted_kvs, str_k_slang, zset_k_id, Command, RedisRtn, Reply, Status, HASH_KF_DATA,
    HASH_KF_MIME, HASH_KF_RSA,
};
use slangbucket::bucket::{new_field_error, ErrorKind, FieldError, Label};
use slangbucket::hash::{
    get_id_from_context, get_slang_from_id, id_from_digest, pronounceable_hash,
};
use slangbucket::query::QueryRoot;

fn text(s: &str) -> String {
    s.to_string()
}

#[test]
fn id_is_the_hex_sha256_of_the_content() {
    assert_eq!(
        get_id_from_context(&text("hello")),
        "2cf24dba5fb0a30e26e83b2ac5b9e29e1b161e5c1fa7425e73043362938b9824"
    );
    assert_eq!(
        get_id_from_context(&text("abc")),
        "ba7816bf8f01cfea414140de5dae2223b00361a396177a9cb410ff61f20015ad"
    );
}

#[test]
fn id_of_empty_content() {
    assert_eq!(
        get_id_from_context(&String::new()),
        "e3b0c44298fc1c149afbf4c8996fb92427ae41e4649b934ca495991b7852b855"
    );
}

#[test]
fn id_of_content_beyond_ascii_hashes_its_utf8_bytes() {
    assert_eq!(
        get_id_from_context(&text("\u{e9}")),
        "4a99557e4033c3539de2eb65472017cad5f9557f7a0625a09f1c3f6e2ba69c4c"
    );
}

#[test]
fn equal_content_has_equal_ids() {
    let first = get_id_from_context(&text("the same bytes"));
    let second = get_id_from_context(&text("the same bytes"));
    assert_eq!(first, second);
}

#[test]
fn different_content_has_different_ids() {
    let first = get_id_from_context(&text("hello"));
    let second = get_id_from_context(&text("hello "));
    assert_ne!(first, second);
}

#[test]
fn id_is_64_lower_hex_digits() {
    let id = get_id_from_context(&text("anything at all"));
    assert_eq!(id.len(), 64);
    assert!(id.chars().all(|c| matches!(c, '0'..='9' | 'a'..='f')));
}

#[test]
fn slang_of_known_ids() {
    let hello = text("2cf24dba5fb0a30e26e83b2ac5b9e29e1b161e5c1fa7425e73043362938b9824");
    assert_eq!(get_slang_from_id(&hello), "avuyuwesebe");
    let empty = text("e3b0c44298fc1c149afbf4c8996fb92427ae41e4649b934ca495991b7852b855");
    assert_eq!(get_slang_from_id(&empty), "ibevocuyuju");
}

#[test]
fn slang_reads_the_first_eleven_characters_only() {
    let short = text("2cf24dba5fb");
    let long = text("2cf24dba5fbffffffffffffffffffffff");
    assert_eq!(get_slang_from_id(&short), "avuyuwesebe");
    assert_eq!(get_slang_from_id(&long), "avuyuwesebe");
}

#[test]
fn slang_alternates_vowels_and_consonants() {
    let vowels = ['a', 'i', 'u', 'e', 'o'];
    let consonants = [
        'b', 'c', 'd', 'g', 'h', 'j', 'k', 'l', 'm', 'n', 'p', 'r', 's', 't', 'v', 'w', 'y',
    ];
    for content in ["", "hello", "abc", "slang", "0123456789"] {
        let slang = get_slang_from_id(&get_id_from_context(&text(content)));
        let letters: Vec<char> = slang.chars().collect();
        assert_eq!(letters.len(), 11);
        for (i, letter) in letters.iter().enumerate() {
            if i % 2 == 0 {
                assert!(vowels.contains(letter));
            } else {
                assert!(consonants.contains(letter));
            }
        }
    }
}

#[test]
fn slang_is_reproducible() {
    let id = get_id_from_context(&text("hello"));
    assert_eq!(get_slang_from_id(&id), get_slang_from_id(&id));
}

#[test]
fn pronounceable_hash_maps_each_character_by_its_code() {
    assert_eq!(pronounceable_hash(&String::new()), "");
    assert_eq!(pronounceable_hash(&text("0")), "e");
    assert_eq!(pronounceable_hash(&text("00")), "ev");
    assert_eq!(pronounceable_hash(&text("0123456789abcdef")), "ewabudohikutowib");
}

#[test]
fn pronounceable_hash_takes_characters_beyond_ascii() {
    assert_eq!(pronounceable_hash(&text("\u{e9}\u{df}")), "ed");
}

#[test]
fn key_shapes() {
    assert_eq!(str_k_slang(&text("avuyuwesebe")), "idx:str:slg:avuyuwesebe");
    assert_eq!(hash_k_id(&text("2cf2")), "bkt:hash:id:2cf2");
    assert_eq!(zset_k_id(&text("2cf2")), "slgs:zset:id:2cf2");
    assert_eq!(str_k_slang(&String::new()), "idx:str:slg:");
    assert_eq!(hash_k_id(&String::new()), "bkt:hash:id:");
    assert_eq!(zset_k_id(&String::new()), "slgs:zset:id:");
}

#[test]
fn field_names() {
    assert_eq!(HASH_KF_MIME, "mime");
    assert_eq!(HASH_KF_DATA, "data");
    assert_eq!(HASH_KF_RSA, "rsa");
}

#[test]
fn commands_carry_what_they_were_built_from() {
    let key = text("k");
    let value = text("v");
    let field = text("f");
    assert_eq!(get_kv(&key), Command::Get { key: text("k") });
    assert_eq!(set_kv(&key, &value), Command::Put { key: text("k"), value: text("v") });
    assert_eq!(del_kv(&key), Command::Del { key: text("k") });
    assert_eq!(
        get_hash_kfv(&key, &field),
        Command::HashGet { key: text("k"), field: text("f") }
    );
    assert_eq!(
        set_hash_kfv(&key, &field, &value),
        Command::HashPut { key: text("k"), field: text("f"), value: text("v") }
    );
    assert_eq!(
        del_hash_kf(&key, &field),
        Command::HashDel { key: text("k"), field: text("f") }
    );
    assert_eq!(
        set_sorted_kvs(&key, &value, 7),
        Command::SortedAdd { key: text("k"), member: text("v"), score: 7 }
    );
    assert_eq!(
        del_sorted_kvs(&key, &value),
        Command::SortedRemove { key: text("k"), member: text("v") }
    );
    assert_eq!(get_sorted_kv(&key), Command::SortedRange { key: text("k") });
}

#[test]
fn replies_give_up_their_content() {
    assert!(Reply::Failed.is_failed());
    assert!(!Reply::Nil.is_failed());
    assert!(Reply::Nil.is_nil());
    assert!(!Reply::Value(RedisRtn::Payload(text("x"))).is_nil());
    assert_eq!(Reply::Value(RedisRtn::Payload(text("x"))).into_text(), "x");
    assert_eq!(Reply::Nil.into_text(), "");
    assert_eq!(Reply::Value(RedisRtn::Status(Status::Int(1))).into_text(), "");
    assert_eq!(
        Reply::Value(RedisRtn::Payload(text("x"))).into_maybe_text(),
        Some(text("x"))
    );
    assert_eq!(Reply::Nil.into_maybe_text(), None);
    assert_eq!(
        Reply::Value(RedisRtn::Payloads(vec![text("a"), text("b")])).into_texts(),
        vec![text("a"), text("b")]
    );
    assert_eq!(Reply::Nil.into_texts(), Vec::<String>::new());
    assert_eq!(
        Reply::Value(RedisRtn::Status(Status::String(text("OK")))).into_texts(),
        Vec::<String>::new()
    );
}

#[test]
fn labels_render_as_messages() {
    let expected = [
        (Label::GetStrKSlang, "GET_STR_K_SLANG"),
        (Label::SetStrKSlang, "SET_STR_K_SLANG"),
        (Label::DelStrKSlang, "DEL_STR_K_SLANG"),
        (Label::GetHashKfData, "GET_HASH_KF_DATA"),
        (Label::GetHashKfMime, "GET_HASH_KF_MIME"),
        (Label::GetHashKfRsa, "GET_HASH_KF_RSA"),
        (Label::SetHashKfData, "SET_HASH_KF_DATA"),
        (Label::SetHashKfMime, "SET_HASH_KF_MIME"),
        (Label::SetHashKfRsa, "SET_HASH_KF_RSA"),
        (Label::DelHashKfRsa, "DEL_HASH_KF_RSA"),
        (Label::DelHashKId, "DEL_HASH_K_ID"),
        (Label::GetZsetKId, "GET_ZSET_K_ID"),
        (Label::SetZsetKId, "SET_ZSET_K_ID"),
        (Label::DelZsetKId, "DEL_ZSET_K_ID"),
        (Label::NoSlang, "NO_SLANG"),
        (Label::NoId, "NO_ID"),
        (Label::SlangExists, "SLANG_EXISTS"),
        (Label::IdLastSlang, "ID_LAST_SLANG"),
        (Label::IdSlangMismatch, "ID_SLANG_MISMATCH"),
    ];
    for (label, message) in expected {
        assert_eq!(label.message(), message);
    }
}

#[test]
fn field_error_keeps_kind_and_label() {
    assert_eq!(
        new_field_error(ErrorKind::Unsupported, Label::IdLastSlang),
        FieldError { kind: ErrorKind::Unsupported, label: Label::IdLastSlang }
    );
}

#[test]
fn api_version() {
    assert_eq!(QueryRoot::apiVersion(), "0.1.0");
}

#[test]
fn digest_renders_as_lower_hex_high_half_first() {
    assert_eq!(id_from_digest(&[]), "");
    assert_eq!(id_from_digest(&[0x00, 0x0f, 0xf0, 0xff]), "000ff0ff");
    assert_eq!(id_from_digest(&[0x2c, 0xf2, 0x4d, 0xba, 0x09, 0xa1]), "2cf24dba09a1");
    assert_eq!(id_from_digest(&[0x01, 0x23, 0x45, 0x67, 0x89, 0xab, 0xcd, 0xef]), "0123456789abcdef");
}

#[test]
fn replies_are_built_from_what_the_backend_returned() {
    assert_eq!(Reply::from_text(None), Reply::Nil);
    assert_eq!(Reply::from_text(Some(text("x"))), Reply::Value(RedisRtn::Payload(text("x"))));
    assert_eq!(Reply::from_texts(None), Reply::Nil);
    assert_eq!(
        Reply::from_texts(Some(vec![text("a")])),
        Reply::Value(RedisRtn::Payloads(vec![text("a")]))
    );
    assert_eq!(
        Reply::from_texts(Some(Vec::new())),
        Reply::Value(RedisRtn::Payloads(Vec::new()))
    );
    assert_eq!(Reply::from_count(2), Reply::Value(RedisRtn::Status(Status::Int(2))));
    assert_eq!(
        Reply::from_status(text("OK")),
        Reply::Value(RedisRtn::Status(Status::String(text("OK"))))
    );
}
