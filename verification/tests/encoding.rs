use mediary_core::data::conversion::SystemTime;
use mediary_core::data::database::{
    collect_rows, delete_result, insert_result, is_builtin_name, media_from_columns,
    media_insert_params, media_tag_params, select_result, tag_from_columns, u64_to_sql_integer,
    SqliteDeleteError, SqliteInsertError, SqliteSelectError,
};
use mediary_core::data::sqlite::{ColumnType, SqlFailure, SqlParam};
use mediary_core::types::media::Media;
use mediary_core::types::media_type::MediaType;
use mediary_core::types::tag::Tag;

fn media_at(secs: u64, nanos: u32, size: u64) -> Media {
    Media {
        id: None,
        path: String::from("/photos/cat.png"),
        media_type: MediaType::Image,
        size_bytes: size,
        added_at: SystemTime::from_epoch_offset(false, secs, nanos),
    }
}

#[test]
fn media_insert_params_encode_every_field() {
    let media = media_at(1_700_000_000, 5, 1234);
    assert_eq!(
        media_insert_params(&media).unwrap(),
        vec![
            SqlParam::Text("/photos/cat.png".into()),
            SqlParam::Text("Image".into()),
            SqlParam::Integer(1234),
            SqlParam::Integer(1_700_000_000),
        ]
    );
}

#[test]
fn sizes_wrap_like_as_i64() {
    assert_eq!(u64_to_sql_integer(0), 0);
    assert_eq!(u64_to_sql_integer(i64::MAX as u64), i64::MAX);
    assert_eq!(u64_to_sql_integer(i64::MAX as u64 + 1), i64::MIN);
    assert_eq!(u64_to_sql_integer(u64::MAX), -1);
    for x in [0u64, 1, 77, 1 << 40, 1 << 63, (1 << 63) + 5, u64::MAX - 3] {
        assert_eq!(u64_to_sql_integer(x), x as i64);
    }
}

#[test]
fn media_before_epoch_has_no_row() {
    let mut media = media_at(0, 0, 1);
    media.added_at = SystemTime::from_epoch_offset(true, 1, 0);
    assert!(media_insert_params(&media).is_err());
}

#[test]
fn media_from_columns_decodes_and_reports_columns() {
    let m = media_from_columns(9, "a/b.mp4".into(), "vIdEo".into(), 42, 1000).unwrap();
    assert_eq!(m.id, Some(9));
    assert_eq!(m.path, "a/b.mp4");
    assert_eq!(m.media_type, MediaType::Video);
    assert_eq!(m.size_bytes, 42);
    assert_eq!(m.added_at, SystemTime::from_epoch_offset(false, 1000, 0));

    let e = media_from_columns(1, "p".into(), "Movie".into(), -1, -1).unwrap_err();
    assert_eq!((e.column, e.column_type, e.message.as_str()), (2, ColumnType::Text, "Matching variant not found"));
    let e = media_from_columns(1, "p".into(), "Audio".into(), -1, -1).unwrap_err();
    assert_eq!((e.column, e.column_type, e.message.as_str()), (3, ColumnType::Integer, "size_bytes cannot be negative"));
    let e = media_from_columns(1, "p".into(), "Audio".into(), 0, -1).unwrap_err();
    assert_eq!((e.column, e.column_type, e.message.as_str()), (4, ColumnType::Integer, "Unix timestamp cannot be negative"));
}

#[test]
fn media_row_round_trip_on_concrete_values() {
    for mt in MediaType::all() {
        let mut media = media_at(1_650_000_000, 999_999_999, 4096);
        media.media_type = mt;
        let p = media_insert_params(&media).unwrap();
        let (path, name, size, ts) = match (&p[0], &p[1], &p[2], &p[3]) {
            (SqlParam::Text(a), SqlParam::Text(b), SqlParam::Integer(c), SqlParam::Integer(d)) => {
                (a.clone(), b.clone(), *c, *d)
            }
            _ => panic!("unexpected parameters {:?}", p),
        };
        let back = media_from_columns(3, path, name, size, ts).unwrap();
        assert_eq!(back, media);
        assert_eq!(back.media_type, mt);
        assert_eq!(back.size_bytes, 4096);
        assert_eq!(back.added_at, SystemTime::from_epoch_offset(false, 1_650_000_000, 0));
        assert_eq!(back.id, Some(3));
    }
}

#[test]
fn tag_from_columns_decodes() {
    assert_eq!(
        tag_from_columns(4, "document".into(), true).unwrap(),
        Tag::Builtin { id: Some(4), media_type: MediaType::Document }
    );
    match tag_from_columns(5, "Funny".into(), false).unwrap() {
        Tag::Custom { id, name } => {
            assert_eq!(id, Some(5));
            assert_eq!(name, "Funny");
        }
        other => panic!("unexpected {:?}", other),
    }
    let e = tag_from_columns(6, "Funny".into(), true).unwrap_err();
    assert_eq!((e.column, e.column_type), (2, ColumnType::Text));
}

#[test]
fn tag_row_round_trip_on_concrete_values() {
    for mt in MediaType::all() {
        let tag = Tag::Builtin { id: None, media_type: mt };
        let back = tag_from_columns(1, tag.to_string(), true).unwrap();
        assert_eq!(back, tag);
    }
    let tag = Tag::Custom { id: None, name: "holiday 2024".into() };
    assert_eq!(tag_from_columns(2, tag.to_string(), false).unwrap(), tag);
}

#[test]
fn builtin_names_are_exact() {
    for mt in MediaType::all() {
        assert!(is_builtin_name(mt.as_str()));
    }
    assert!(!is_builtin_name("image"));
    assert!(!is_builtin_name("Funny"));
    assert!(!is_builtin_name(""));
}

#[test]
fn media_tag_params_encode_missing_media_id_as_null() {
    assert_eq!(media_tag_params(Some(3), 4), vec![SqlParam::Integer(3), SqlParam::Integer(4)]);
    assert_eq!(media_tag_params(None, 4), vec![SqlParam::Null, SqlParam::Integer(4)]);
}

#[test]
fn outcomes_are_sorted_into_errors() {
    assert!(matches!(insert_result(Ok(1)), Ok(())));
    assert!(matches!(
        insert_result(Err(SqlFailure::ConstraintViolation(rusqlite::Error::InvalidQuery))),
        Err(SqliteInsertError::AlreadyExists)
    ));
    assert!(matches!(
        insert_result(Err(SqlFailure::Other(rusqlite::Error::InvalidQuery))),
        Err(SqliteInsertError::SqliteError(rusqlite::Error::InvalidQuery))
    ));
    assert!(matches!(select_result(Ok(5)), Ok(Some(5))));
    assert!(matches!(
        select_result::<i32>(Err(SqlFailure::NoRows(rusqlite::Error::QueryReturnedNoRows))),
        Ok(None)
    ));
    assert!(matches!(
        select_result::<i32>(Err(SqlFailure::ConstraintViolation(rusqlite::Error::InvalidQuery))),
        Err(SqliteSelectError::SqliteError(_))
    ));
    assert!(matches!(delete_result(Ok(0)), Err(SqliteDeleteError::NotFound)));
    assert!(matches!(delete_result(Ok(2)), Ok(())));
    assert!(matches!(
        delete_result(Err(rusqlite::Error::InvalidQuery)),
        Err(SqliteDeleteError::SqliteError(_))
    ));
}

#[test]
fn collect_rows_keeps_order_or_first_error() {
    assert_eq!(collect_rows::<i32>(vec![]).unwrap(), Vec::<i32>::new());
    assert_eq!(collect_rows(vec![Ok(1), Ok(2), Ok(3)]).unwrap(), vec![1, 2, 3]);
    let r = collect_rows(vec![
        Ok(1),
        Err(rusqlite::Error::InvalidQuery),
        Err(rusqlite::Error::QueryReturnedNoRows),
    ]);
    assert!(matches!(r, Err(rusqlite::Error::InvalidQuery)));
}

#[test]
fn error_messages() {
    assert_eq!(SqliteInsertError::AlreadyExists.to_string(), "Item with this path already exists");
    assert_eq!(SqliteInsertError::Other("x".into()).to_string(), "x");
    assert_eq!(SqliteDeleteError::NotFound.to_string(), "Item does not exist");
    assert_eq!(SqliteSelectError::Other("y".into()).to_string(), "y");
    assert_eq!(
        SqliteSelectError::SqliteError(rusqlite::Error::QueryReturnedNoRows).to_string(),
        rusqlite::Error::QueryReturnedNoRows.to_string()
    );
}

#[test]
fn media_equality_follows_paths() {
    let a = media_at(1, 0, 1);
    let mut b = media_at(2, 0, 99);
    b.media_type = MediaType::Audio;
    assert_eq!(a, b);
    let mut c = media_at(1, 0, 1);
    c.path = "/photos/cat.png/".into();
    assert_eq!(a, c);
    c.path = "/photos//cat.png".into();
    assert_eq!(a, c);
    c.path = "/photos/dog.png".into();
    assert_ne!(a, c);
}
