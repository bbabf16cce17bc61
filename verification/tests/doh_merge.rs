use edge_gateway::doh::{
    merge, plan, DohRequest, ResolverReply, DNS_MESSAGE, FIRST_RESOLVER, SECOND_RESOLVER,
};

fn answered(status: u16, body: &[u8]) -> ResolverReply {
    ResolverReply::Answered { status, body: body.to_vec() }
}

#[test]
fn both_answers_are_concatenated_in_order() {
    assert_eq!(merge(&vec![answered(200, &[0xAA]), answered(200, &[0xBB])]), vec![0xAA, 0xBB]);
    assert_eq!(merge(&vec![answered(200, &[0xBB]), answered(200, &[0xAA])]), vec![0xBB, 0xAA]);
}

#[test]
fn failed_resolver_is_skipped() {
    assert_eq!(merge(&vec![ResolverReply::Failed, answered(200, &[0xBB])]), vec![0xBB]);
    assert_eq!(merge(&vec![answered(200, &[0xAA]), ResolverReply::Failed]), vec![0xAA]);
}

#[test]
fn no_answer_is_an_empty_buffer() {
    assert_eq!(merge(&vec![ResolverReply::Failed, ResolverReply::Failed]), Vec::<u8>::new());
    assert_eq!(merge(&vec![answered(500, &[1]), answered(404, &[2])]), Vec::<u8>::new());
    assert_eq!(merge(&Vec::new()), Vec::<u8>::new());
}

#[test]
fn only_a_status_of_success_contributes() {
    assert_eq!(merge(&vec![answered(503, &[0xAA]), answered(200, &[0xBB])]), vec![0xBB]);
    assert_eq!(merge(&vec![answered(199, &[1]), answered(200, &[2]), answered(299, &[3]), answered(300, &[4])]), vec![2, 3]);
    assert_eq!(merge(&vec![answered(204, &[]), answered(206, &[7, 8])]), vec![7, 8]);
}

#[test]
fn answers_are_not_made_into_one_message() {
    let first = [0x12, 0x34, 0x81, 0x80, 0, 1];
    let second = [0x12, 0x34, 0x81, 0x80, 0, 1];
    let merged = merge(&vec![answered(200, &first), answered(200, &second)]);
    assert_eq!(merged.len(), 12);
    assert_eq!(&merged[..6], &first);
    assert_eq!(&merged[6..], &second);
}

#[test]
fn same_query_goes_to_each_resolver_in_order() {
    let query = [0u8, 1, 2, 250];
    let requests = plan(&query);
    let expected = |url: &str| DohRequest {
        url: url.to_string(),
        content_type: "application/dns-message".to_string(),
        accept: "application/dns-message".to_string(),
        body: query.to_vec(),
    };
    assert_eq!(requests, vec![expected("https://1.1.1.1/dns-query"), expected("https://8.8.8.8/dns-query")]);
    assert_eq!(FIRST_RESOLVER, "https://1.1.1.1/dns-query");
    assert_eq!(SECOND_RESOLVER, "https://8.8.8.8/dns-query");
    assert_eq!(DNS_MESSAGE, "application/dns-message");
    assert!(plan(&[]).iter().all(|r| r.body.is_empty()));
}
