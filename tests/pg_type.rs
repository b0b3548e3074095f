use queue_remote_fs::pg_type::{PgType, PgTypeId};

#[test]
fn catalog_lookups() {
    assert_eq!(PgTypeId::from_oid(16), Some(PgTypeId::BOOL));
    assert_eq!(PgType::get_by_tid(PgTypeId::BOOL).typname, "bool");
    assert_eq!(PgType::get_by_tid(PgTypeId::BOOL).get_typreceive_oid(), 2436);
    assert_eq!(PgTypeId::from_oid(99999), None);
}

#[test]
fn unspecified_has_oid_zero_and_is_not_listed() {
    assert_eq!(PgType::get_by_tid(PgTypeId::UNSPECIFIED).oid, 0);
    assert_eq!(PgTypeId::from_oid(0), Some(PgTypeId::UNSPECIFIED));
    let all = PgType::get_all();
    assert_eq!(all.len(), 52);
    assert!(all.iter().all(|t| t.oid != 0 && t.typname != "unspecified"));
}

#[test]
fn every_listed_type_round_trips_through_its_oid() {
    for t in PgType::get_all() {
        let id = PgTypeId::from_oid(t.oid).expect("listed oid is known");
        assert_eq!(id.to_type().oid, t.oid);
        assert_eq!(id.to_type().typname, t.typname);
    }
    let id = PgTypeId::SQLIDENTIFIER;
    assert_eq!(PgTypeId::from_oid(id.to_type().oid), Some(id));
}

#[test]
fn enumeration_keeps_declaration_order() {
    let all = PgType::get_all();
    assert_eq!(all[0].oid, 16);
    assert_eq!(all[1].oid, 17);
    assert_eq!(all[all.len() - 1].oid, 13410);
    assert_eq!(all[all.len() - 1].typname, "sql_identifier");
}

#[test]
fn descriptor_attributes_are_exact() {
    let t = PgTypeId::CHARACTERDATA.to_type();
    assert_eq!(t.oid, 13408);
    assert_eq!(t.typname, "character_data");
    assert_eq!(t.typnamespace, 13000);
    assert_eq!(t.typowner, 10);
    assert_eq!(t.typlen, -1);
    assert!(!t.typbyval);
    assert_eq!(t.typtype, "d");
    assert_eq!(t.typcategory, "S");
    assert!(!t.typisprefered);
    assert!(t.typisdefined);
    assert_eq!(t.typrelid, 0);
    assert_eq!(t.typsubscript, "-");
    assert_eq!(t.typelem, 0);
    assert_eq!(t.typarray, 0);
    assert_eq!(t.typalign, "i");
    assert_eq!(t.typstorage, "x");
    assert_eq!(t.typbasetype, 1043);
    assert_eq!(t.typreceive, "domain_recv");
    assert_eq!(t.typinput, "domain_in");
}

#[test]
fn receive_function_oids() {
    let cases = [
        (PgTypeId::ARRAYBOOL, 2400),
        (PgTypeId::BOOL, 2436),
        (PgTypeId::FLOAT4, 2424),
        (PgTypeId::FLOAT8, 2426),
        (PgTypeId::INT2, 2404),
        (PgTypeId::INT4, 2406),
        (PgTypeId::INT8, 2408),
        (PgTypeId::NUMERIC, 2460),
        (PgTypeId::TEXT, 2414),
        (PgTypeId::TIMESTAMP, 2474),
        (PgTypeId::VARCHAR, 2432),
        (PgTypeId::CHARACTERDATA, 0),
        (PgTypeId::UNSPECIFIED, 0),
    ];
    for (id, oid) in cases {
        assert_eq!(PgType::get_by_tid(id).get_typreceive_oid(), oid, "{:?}", id);
    }
}

#[test]
fn every_type_supports_binary() {
    assert!(PgType::get_by_tid(PgTypeId::UNSPECIFIED).is_binary_supported());
    assert!(PgType::get_all().iter().all(|t| t.is_binary_supported()));
}
