use brpc_rs::BrpcError;

#[test]
fn from_i32() {
    assert_eq!(BrpcError::from(0), BrpcError::NOERROR);
    assert_eq!(BrpcError::from(1001), BrpcError::ENOSERVICE);
    assert_eq!(BrpcError::from(1002), BrpcError::ENOMETHOD);
    assert_eq!(BrpcError::from(1003), BrpcError::EREQUEST);
    assert_eq!(BrpcError::from(1004), BrpcError::ERPCAUTH);
    assert_eq!(BrpcError::from(1005), BrpcError::ETOOMANYFAILS);
    assert_eq!(BrpcError::from(1006), BrpcError::EPCHANFINISH);
    assert_eq!(BrpcError::from(1007), BrpcError::EBACKUPREQUEST);
    assert_eq!(BrpcError::from(1008), BrpcError::ERPCTIMEDOUT);
    assert_eq!(BrpcError::from(1009), BrpcError::EFAILEDSOCKET);
    assert_eq!(BrpcError::from(1010), BrpcError::EHTTP);
    assert_eq!(BrpcError::from(1011), BrpcError::EOVERCROWDED);
    assert_eq!(BrpcError::from(1012), BrpcError::ERTMPPUBLISHABLE);
    assert_eq!(BrpcError::from(1013), BrpcError::ERTMPCREATESTREAM);
    assert_eq!(BrpcError::from(1014), BrpcError::EEOF);
    assert_eq!(BrpcError::from(1015), BrpcError::EUNUSED);
    assert_eq!(BrpcError::from(1016), BrpcError::ESSL);
    assert_eq!(BrpcError::from(1017), BrpcError::EH2RUNOUTSTREAMS);
    assert_eq!(BrpcError::from(1018), BrpcError::EREJECT);
    assert_eq!(BrpcError::from(2001), BrpcError::EINTERNAL);
    assert_eq!(BrpcError::from(2002), BrpcError::ERESPONSE);
    assert_eq!(BrpcError::from(2003), BrpcError::ELOGOFF);
    assert_eq!(BrpcError::from(2004), BrpcError::ELIMIT);
    assert_eq!(BrpcError::from(2005), BrpcError::ECLOSE);
    assert_eq!(BrpcError::from(2006), BrpcError::EITP);
    assert_eq!(BrpcError::from(3001), BrpcError::ESERIALIZE);
    assert_eq!(BrpcError::from(3002), BrpcError::EDESERIALIZE);
    assert_eq!(BrpcError::from(3003), BrpcError::EFFI);
    assert_eq!(BrpcError::from(5678), BrpcError::UNKNOWN);
}

#[test]
fn code_round_trip_on_documented_codes() {
    let documented: Vec<i32> = vec![
        0, 1001, 1002, 1003, 1004, 1005, 1006, 1007, 1008, 1009, 1010, 1011, 1012, 1013, 1014,
        1015, 1016, 1017, 1018, 2001, 2002, 2003, 2004, 2005, 2006, 3001, 3002, 3003,
    ];
    for c in documented {
        assert_eq!(BrpcError::from(c).code(), c);
    }
}

#[test]
fn undocumented_codes_map_to_unknown() {
    assert_eq!(BrpcError::from(-1), BrpcError::UNKNOWN);
    assert_eq!(BrpcError::from(1), BrpcError::UNKNOWN);
    assert_eq!(BrpcError::from(1000), BrpcError::UNKNOWN);
    assert_eq!(BrpcError::from(1019), BrpcError::UNKNOWN);
    assert_eq!(BrpcError::from(2007), BrpcError::UNKNOWN);
    assert_eq!(BrpcError::from(3004), BrpcError::UNKNOWN);
    assert_eq!(BrpcError::from(i32::MAX), BrpcError::UNKNOWN);
    assert_eq!(BrpcError::UNKNOWN.code(), 0xffff);
}
