use bytes::Bytes;
use pageserver_api::lsn::Lsn;
use pageserver_api::models::{
    PagestreamBeMessage, PagestreamDbSizeRequest, PagestreamDbSizeResponse,
    PagestreamErrorResponse, PagestreamExistsRequest, PagestreamExistsResponse,
    PagestreamFeMessage, PagestreamGetPageRequest, PagestreamGetPageResponse,
    PagestreamGetSlruPageRequest, PagestreamGetSlruPageResponse, PagestreamNblocksRequest,
    PagestreamNblocksResponse, ProtocolError,
};
use pageserver_api::reltag::{RelTag, SlruKind};

fn rel() -> RelTag {
    RelTag {
        forknum: 1,
        spcnode: 2,
        dbnode: 3,
        relnode: 4,
    }
}

fn round_trip(msg: PagestreamFeMessage) {
    let bytes = msg.serialize();
    let reconstructed = PagestreamFeMessage::parse(&bytes[..]).unwrap();
    assert!(msg == reconstructed);
}

#[test]
fn test_pagestream() {
    // Test serialization/deserialization of PagestreamFeMessage
    let messages = vec![
        PagestreamFeMessage::Exists(PagestreamExistsRequest {
            latest: true,
            lsn: Lsn(4),
            rel: RelTag {
                forknum: 1,
                spcnode: 2,
                dbnode: 3,
                relnode: 4,
            },
            region: 0,
        }),
        PagestreamFeMessage::Nblocks(PagestreamNblocksRequest {
            latest: false,
            lsn: Lsn(4),
            rel: RelTag {
                forknum: 1,
                spcnode: 2,
                dbnode: 3,
                relnode: 4,
            },
            region: 0,
        }),
        PagestreamFeMessage::GetPage(PagestreamGetPageRequest {
            latest: true,
            lsn: Lsn(4),
            rel: RelTag {
                forknum: 1,
                spcnode: 2,
                dbnode: 3,
                relnode: 4,
            },
            blkno: 7,
            region: 0,
        }),
        PagestreamFeMessage::DbSize(PagestreamDbSizeRequest {
            latest: true,
            lsn: Lsn(4),
            dbnode: 7,
        }),
    ];
    for msg in messages {
        let bytes = msg.serialize();
        let reconstructed = PagestreamFeMessage::parse(&bytes[..]).unwrap();
        assert!(msg == reconstructed);
    }
}

#[test]
fn get_page_encodes_to_known_bytes() {
    let msg = PagestreamFeMessage::GetPage(PagestreamGetPageRequest {
        latest: true,
        lsn: Lsn(4),
        rel: rel(),
        blkno: 7,
        region: 0,
    });
    let bytes = msg.serialize();
    let expected: Vec<u8> = vec![
        2, 1, 0, 0, 0, 0, 0, 0, 0, 4, 0, 0, 0, 2, 0, 0, 0, 3, 0, 0, 0, 4, 1, 0, 0, 0, 7, 0, 0, 0,
        0,
    ];
    assert_eq!(&bytes[..], &expected[..]);
    assert!(PagestreamFeMessage::parse(&expected[..]).unwrap() == msg);
}

#[test]
fn slru_request_encodes_to_known_bytes() {
    let msg = PagestreamFeMessage::GetSlruPage(PagestreamGetSlruPageRequest {
        latest: false,
        lsn: Lsn(0x0102030405060708),
        region: 9,
        kind: SlruKind::MultiXactOffsets,
        segno: 0x0a0b0c0d,
        blkno: 5,
        check_exists_only: true,
    });
    let expected: Vec<u8> = vec![
        4, 0, 1, 2, 3, 4, 5, 6, 7, 8, 2, 10, 11, 12, 13, 0, 0, 0, 5, 1, 0, 0, 0, 9,
    ];
    assert_eq!(&msg.serialize()[..], &expected[..]);
    assert!(PagestreamFeMessage::parse(&expected[..]).unwrap() == msg);
}

#[test]
fn db_size_request_encodes_to_known_bytes() {
    let msg = PagestreamFeMessage::DbSize(PagestreamDbSizeRequest {
        latest: false,
        lsn: Lsn(1),
        dbnode: 0x01020304,
    });
    let expected: Vec<u8> = vec![3, 0, 0, 0, 0, 0, 0, 0, 0, 1, 1, 2, 3, 4];
    assert_eq!(&msg.serialize()[..], &expected[..]);
}

#[test]
fn round_trip_at_boundary_values() {
    for &v in &[0u32, 1, u32::MAX] {
        for &latest in &[false, true] {
            let lsn = Lsn(if v == u32::MAX { u64::MAX } else { v as u64 });
            let r = RelTag {
                forknum: if v == 0 { 0 } else { u8::MAX },
                spcnode: v,
                dbnode: v,
                relnode: v,
            };
            round_trip(PagestreamFeMessage::Exists(PagestreamExistsRequest {
                latest,
                lsn,
                region: v,
                rel: r,
            }));
            round_trip(PagestreamFeMessage::Nblocks(PagestreamNblocksRequest {
                latest,
                lsn,
                region: v,
                rel: r,
            }));
            round_trip(PagestreamFeMessage::GetPage(PagestreamGetPageRequest {
                latest,
                lsn,
                region: v,
                rel: r,
                blkno: v,
            }));
            round_trip(PagestreamFeMessage::DbSize(PagestreamDbSizeRequest {
                latest,
                lsn,
                dbnode: v,
            }));
            for kind in [SlruKind::Clog, SlruKind::MultiXactMembers, SlruKind::MultiXactOffsets] {
                round_trip(PagestreamFeMessage::GetSlruPage(PagestreamGetSlruPageRequest {
                    latest,
                    lsn,
                    region: v,
                    kind,
                    segno: v,
                    blkno: v,
                    check_exists_only: !latest,
                }));
            }
        }
    }
}

#[test]
fn request_tags_are_fixed() {
    let reqs = [
        PagestreamFeMessage::Exists(PagestreamExistsRequest {
            latest: false,
            lsn: Lsn(0),
            region: 0,
            rel: rel(),
        }),
        PagestreamFeMessage::Nblocks(PagestreamNblocksRequest {
            latest: false,
            lsn: Lsn(0),
            region: 0,
            rel: rel(),
        }),
        PagestreamFeMessage::GetPage(PagestreamGetPageRequest {
            latest: false,
            lsn: Lsn(0),
            region: 0,
            rel: rel(),
            blkno: 0,
        }),
        PagestreamFeMessage::DbSize(PagestreamDbSizeRequest {
            latest: false,
            lsn: Lsn(0),
            dbnode: 0,
        }),
        PagestreamFeMessage::GetSlruPage(PagestreamGetSlruPageRequest {
            latest: false,
            lsn: Lsn(0),
            region: 0,
            kind: SlruKind::Clog,
            segno: 0,
            blkno: 0,
            check_exists_only: false,
        }),
    ];
    let lens = [27usize, 27, 31, 14, 24];
    for (i, req) in reqs.iter().enumerate() {
        let bytes = req.serialize();
        assert_eq!(bytes[0], i as u8);
        assert_eq!(bytes.len(), lens[i]);
    }
}

#[test]
fn truncated_requests_are_rejected() {
    let reqs = [
        PagestreamFeMessage::Exists(PagestreamExistsRequest {
            latest: true,
            lsn: Lsn(4),
            region: 0,
            rel: rel(),
        }),
        PagestreamFeMessage::GetPage(PagestreamGetPageRequest {
            latest: true,
            lsn: Lsn(4),
            region: 0,
            rel: rel(),
            blkno: 7,
        }),
        PagestreamFeMessage::DbSize(PagestreamDbSizeRequest {
            latest: true,
            lsn: Lsn(4),
            dbnode: 7,
        }),
        PagestreamFeMessage::GetSlruPage(PagestreamGetSlruPageRequest {
            latest: true,
            lsn: Lsn(4),
            region: 0,
            kind: SlruKind::Clog,
            segno: 1,
            blkno: 2,
            check_exists_only: false,
        }),
    ];
    for req in reqs.iter() {
        let bytes = req.serialize();
        for n in 0..bytes.len() {
            assert_eq!(
                PagestreamFeMessage::parse(&bytes[..n]),
                Err(ProtocolError::Truncated)
            );
        }
    }
}

#[test]
fn empty_input_is_truncated() {
    assert_eq!(PagestreamFeMessage::parse(&[]), Err(ProtocolError::Truncated));
}

#[test]
fn trailing_bytes_are_left_unread() {
    let msg = PagestreamFeMessage::DbSize(PagestreamDbSizeRequest {
        latest: true,
        lsn: Lsn(4),
        dbnode: 7,
    });
    let mut bytes = msg.serialize().to_vec();
    bytes.extend_from_slice(&[9, 9, 9]);
    assert!(PagestreamFeMessage::parse(&bytes[..]).unwrap() == msg);
}

#[test]
fn unknown_tags_are_rejected() {
    for tag in 5u8..=255 {
        let mut bytes = vec![0u8; 40];
        bytes[0] = tag;
        assert_eq!(
            PagestreamFeMessage::parse(&bytes[..]),
            Err(ProtocolError::UnknownTag(tag))
        );
    }
    assert_eq!(
        PagestreamFeMessage::parse(&[100]),
        Err(ProtocolError::UnknownTag(100))
    );
}

#[test]
fn invalid_slru_kind_is_rejected() {
    let msg = PagestreamFeMessage::GetSlruPage(PagestreamGetSlruPageRequest {
        latest: true,
        lsn: Lsn(4),
        region: 0,
        kind: SlruKind::Clog,
        segno: 1,
        blkno: 2,
        check_exists_only: false,
    });
    let good = msg.serialize().to_vec();
    for kind in [3u8, 7, 255] {
        let mut bytes = good.clone();
        bytes[10] = kind;
        assert_eq!(
            PagestreamFeMessage::parse(&bytes[..]),
            Err(ProtocolError::InvalidSlruKind(kind))
        );
        // the kind byte is reached before the input runs out
        assert_eq!(
            PagestreamFeMessage::parse(&bytes[..12]),
            Err(ProtocolError::InvalidSlruKind(kind))
        );
    }
}

#[test]
fn slru_kind_codes() {
    assert_eq!(SlruKind::Clog.to_u8(), 0);
    assert_eq!(SlruKind::MultiXactMembers.to_u8(), 1);
    assert_eq!(SlruKind::MultiXactOffsets.to_u8(), 2);
    for b in 0u8..=255 {
        match SlruKind::from_u8(b) {
            Some(k) => assert_eq!(k.to_u8(), b),
            None => assert!(b > 2),
        }
    }
}

#[test]
fn exists_response_bytes() {
    let m = PagestreamBeMessage::Exists(PagestreamExistsResponse {
        lsn: Lsn(0x0102),
        exists: true,
    });
    assert_eq!(&m.serialize()[..], &[100, 0, 0, 0, 0, 0, 0, 1, 2, 1][..]);
}

#[test]
fn nblocks_response_bytes() {
    let m = PagestreamBeMessage::Nblocks(PagestreamNblocksResponse {
        lsn: Lsn(3),
        n_blocks: 0x01000002,
    });
    assert_eq!(
        &m.serialize()[..],
        &[101, 0, 0, 0, 0, 0, 0, 0, 3, 1, 0, 0, 2][..]
    );
}

#[test]
fn get_page_response_bytes() {
    let m = PagestreamBeMessage::GetPage(PagestreamGetPageResponse {
        lsn: Lsn(5),
        page: Bytes::from(vec![7u8, 8, 9]),
    });
    assert_eq!(
        &m.serialize()[..],
        &[102, 0, 0, 0, 0, 0, 0, 0, 5, 7, 8, 9][..]
    );
}

#[test]
fn get_slru_page_response_bytes() {
    let present = PagestreamBeMessage::GetSlruPage(PagestreamGetSlruPageResponse {
        lsn: Lsn(6),
        seg_exists: true,
        page: Some(Bytes::from(vec![0xaau8, 0xbb])),
    });
    assert_eq!(
        &present.serialize()[..],
        &[103, 0, 0, 0, 0, 0, 0, 0, 6, 1, 1, 0xaa, 0xbb][..]
    );
    let absent = PagestreamBeMessage::GetSlruPage(PagestreamGetSlruPageResponse {
        lsn: Lsn(6),
        seg_exists: false,
        page: None,
    });
    assert_eq!(
        &absent.serialize()[..],
        &[103, 0, 0, 0, 0, 0, 0, 0, 6, 0, 0][..]
    );
}

#[test]
fn error_response_bytes() {
    let m = PagestreamBeMessage::Error(PagestreamErrorResponse {
        message: "né".to_string(),
    });
    assert_eq!(&m.serialize()[..], &[104, b'n', 0xc3, 0xa9, 0][..]);
    let empty = PagestreamBeMessage::Error(PagestreamErrorResponse {
        message: String::new(),
    });
    assert_eq!(&empty.serialize()[..], &[104, 0][..]);
}

#[test]
fn db_size_response_bytes() {
    let m = PagestreamBeMessage::DbSize(PagestreamDbSizeResponse {
        lsn: Lsn(1),
        db_size: -2,
    });
    assert_eq!(
        &m.serialize()[..],
        &[105, 0, 0, 0, 0, 0, 0, 0, 1, 0xff, 0xff, 0xff, 0xff, 0xff, 0xff, 0xff, 0xfe][..]
    );
    let big = PagestreamBeMessage::DbSize(PagestreamDbSizeResponse {
        lsn: Lsn(0),
        db_size: i64::MAX,
    });
    assert_eq!(big.serialize()[9], 0x7f);
}

#[test]
fn try_serialize_matches_serialize() {
    let m = PagestreamBeMessage::GetPage(PagestreamGetPageResponse {
        lsn: Lsn(5),
        page: Bytes::from(vec![1u8; 8192]),
    });
    let a = m.try_serialize().unwrap();
    assert_eq!(a.len(), 9 + 8192);
    assert_eq!(&a[..], &m.serialize()[..]);
    let e = PagestreamBeMessage::Error(PagestreamErrorResponse {
        message: "no such relation".to_string(),
    });
    let b = e.try_serialize().unwrap();
    assert_eq!(b[0], 104);
    assert_eq!(b.len(), 18);
    assert_eq!(b[17], 0);
}
