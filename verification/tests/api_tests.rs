use acme_provision::api::{format_clock, TimeReq, TimeResp};

#[test]
fn clock_is_zero_padded() {
    assert_eq!(format_clock(9, 5), "09:05");
    assert_eq!(format_clock(0, 0), "00:00");
    assert_eq!(format_clock(23, 59), "23:59");
    assert_eq!(format_clock(13, 30), "13:30");
}

#[test]
fn default_response_is_empty() {
    let resp = TimeResp::default();
    assert_eq!(resp.team, "");
    assert_eq!(resp.start, "");
    assert_eq!(resp.kickoff, "");
    assert_eq!(resp.end, "");
    assert_eq!(resp.start_trans, "");
    assert_eq!(resp.kickoff_trans, "");
    assert_eq!(resp.end_trans, "");
}

#[test]
fn request_fields_carry_over() {
    let req = TimeReq {
        year: 2022,
        week: 5,
        team: "Ohio State".to_string(),
        offset: -5,
    };
    assert_eq!(req.year, 2022);
    assert_eq!(req.week, 5);
    assert_eq!(req.team, "Ohio State");
    assert_eq!(req.offset, -5);
}
