//! The DNS-over-HTTPS aggregator: one query to several resolvers, their
//! answers merged.
//!
//! The same query goes to every resolver, and every resolver is waited for.
//! The merged answer is the bodies of those that answered with success, one
//! after the other in the resolvers' order. This is a plain concatenation:
//! the result is not one valid DNS message where more than one resolver
//! answered, and an empty result means that there is no answer.

use vstd::prelude::*;
use vstd::slice::slice_to_vec;

verus! {

/// The content type of a DNS message.
pub const DNS_MESSAGE: &'static str = "application/dns-message";

/// The first resolver.
pub const FIRST_RESOLVER: &'static str = "https://1.1.1.1/dns-query";

/// The second resolver.
pub const SECOND_RESOLVER: &'static str = "https://8.8.8.8/dns-query";

/// The resolvers, in the order in which their answers are merged.
pub open spec fn resolver_urls() -> Seq<Seq<char>> {
    seq![FIRST_RESOLVER@, SECOND_RESOLVER@]
}

/// One request to one resolver: an HTTP POST of `body` to `url`.
#[derive(Debug, PartialEq, Eq)]
pub struct DohRequest {
    pub url: String,
    pub content_type: String,
    pub accept: String,
    pub body: Vec<u8>,
}

pub struct DohRequestView {
    pub url: Seq<char>,
    pub content_type: Seq<char>,
    pub accept: Seq<char>,
    pub body: Seq<u8>,
}

impl View for DohRequest {
    type V = DohRequestView;

    open spec fn view(&self) -> DohRequestView {
        DohRequestView {
            url: self.url@,
            content_type: self.content_type@,
            accept: self.accept@,
            body: self.body@,
        }
    }
}

/// The request that carries `query` to the resolver at `url`.
pub open spec fn request_to(url: Seq<char>, query: Seq<u8>) -> DohRequestView {
    DohRequestView { url, content_type: DNS_MESSAGE@, accept: DNS_MESSAGE@, body: query }
}

fn request(url: &str, query: &[u8]) -> (r: DohRequest)
    ensures
        r@ == request_to(url@, query@),
{
    DohRequest {
        url: url.to_owned(),
        content_type: DNS_MESSAGE.to_owned(),
        accept: DNS_MESSAGE.to_owned(),
        body: slice_to_vec(query),
    }
}

/// The requests that carry `query` to the resolvers: one for each, in their
/// order, all with the same body.
pub fn plan(query: &[u8]) -> (requests: Vec<DohRequest>)
    ensures
        requests@.len() == resolver_urls().len(),
        forall|i: int|
            0 <= i < requests@.len() ==> (#[trigger] requests@[i])@ == request_to(
                resolver_urls()[i],
                query@,
            ),
{
    let mut requests: Vec<DohRequest> = Vec::new();
    requests.push(request(FIRST_RESOLVER, query));
    requests.push(request(SECOND_RESOLVER, query));
    requests
}

/// What came of one request.
#[derive(Clone, Debug, PartialEq, Eq)]
pub enum ResolverReply {
    /// The resolver answered.
    Answered { status: u16, body: Vec<u8> },
    /// The request failed.
    Failed,
}

pub enum ResolverReplyView {
    Answered { status: u16, body: Seq<u8> },
    Failed,
}

impl View for ResolverReply {
    type V = ResolverReplyView;

    open spec fn view(&self) -> ResolverReplyView {
        match *self {
            ResolverReply::Answered { status, body } => ResolverReplyView::Answered {
                status,
                body: body@,
            },
            ResolverReply::Failed => ResolverReplyView::Failed,
        }
    }
}

pub open spec fn reply_views(replies: Seq<ResolverReply>) -> Seq<ResolverReplyView> {
    Seq::new(replies.len(), |i: int| replies[i]@)
}

/// A status of success: 200 to 299.
pub open spec fn is_success(status: u16) -> bool {
    200 <= status <= 299
}

/// What one reply adds to the merged answer: its body where the resolver
/// answered with success, nothing otherwise.
pub open spec fn contribution(reply: ResolverReplyView) -> Seq<u8> {
    match reply {
        ResolverReplyView::Answered { status, body } => if is_success(status) {
            body
        } else {
            Seq::empty()
        },
        ResolverReplyView::Failed => Seq::empty(),
    }
}

/// The merged answer: the contributions of the replies, in order.
pub open spec fn merged(replies: Seq<ResolverReplyView>) -> Seq<u8>
    decreases replies.len(),
{
    if replies.len() == 0 {
        Seq::empty()
    } else {
        merged(replies.drop_last()) + contribution(replies.last())
    }
}

/// Merges the replies of the resolvers, given in the resolvers' order.
pub fn merge(replies: &Vec<ResolverReply>) -> (answer: Vec<u8>)
    ensures
        answer@ == merged(reply_views(replies@)),
{
    let ghost views = reply_views(replies@);
    let mut answer: Vec<u8> = Vec::new();
    let mut i: usize = 0;
    while i < replies.len()
        invariant
            i <= replies.len(),
            views == reply_views(replies@),
            answer@ == merged(views.take(i as int)),
        decreases replies.len() - i,
    {
        proof {
            let upto = views.take(i + 1);
            assert(upto.drop_last() =~= views.take(i as int));
            assert(upto.last() == replies@[i as int]@);
        }
        match &replies[i] {
            ResolverReply::Answered { status, body } => {
                if 200 <= *status && *status <= 299 {
                    answer.extend_from_slice(body.as_slice());
                }
            },
            ResolverReply::Failed => {},
        }
        i += 1;
        assert(answer@ =~= merged(views.take(i as int)));
    }
    assert(views.take(i as int) =~= views);
    answer
}

/// Merging is concatenation: the merged answer of two runs of replies is
/// the merged answer of the first followed by that of the second.
pub proof fn lemma_merged_concat(a: Seq<ResolverReplyView>, b: Seq<ResolverReplyView>)
    ensures
        merged(a + b) == merged(a) + merged(b),
    decreases b.len(),
{
    if b.len() == 0 {
        assert(a + b =~= a);
        assert(merged(a) + merged(b) =~= merged(a));
    } else {
        assert((a + b).drop_last() =~= a + b.drop_last());
        assert((a + b).last() == b.last());
        lemma_merged_concat(a, b.drop_last());
        assert(merged(a + b) =~= merged(a) + merged(b));
    }
}

/// Where no resolver answered with success the merged answer is empty.
pub proof fn lemma_no_success_merges_empty(replies: Seq<ResolverReplyView>)
    requires
        forall|i: int| 0 <= i < replies.len() ==> contribution(#[trigger] replies[i]).len() == 0,
    ensures
        merged(replies) == Seq::<u8>::empty(),
    decreases replies.len(),
{
    if replies.len() > 0 {
        let front = replies.drop_last();
        assert forall|i: int| 0 <= i < front.len() implies contribution(#[trigger] front[i]).len()
            == 0 by {
            assert(front[i] == replies[i]);
        }
        lemma_no_success_merges_empty(front);
        assert(contribution(replies.last()).len() == 0);
        assert(merged(replies) =~= Seq::<u8>::empty());
    }
}

/// A reply that failed, or that came with a status outside 200..=299, adds
/// nothing: the merged answer is that of the other replies.
pub proof fn lemma_failure_is_skipped(
    before: Seq<ResolverReplyView>,
    reply: ResolverReplyView,
    after: Seq<ResolverReplyView>,
)
    requires
        reply is Failed || !is_success(reply->status),
    ensures
        merged(before + seq![reply] + after) == merged(before + after),
{
    lemma_merged_concat(before + seq![reply], after);
    lemma_merged_concat(before, seq![reply]);
    lemma_merged_concat(before, after);
    let one = seq![reply];
    assert(one.drop_last() =~= Seq::<ResolverReplyView>::empty());
    assert(one.last() == reply);
    assert(merged(one.drop_last()) =~= Seq::<u8>::empty());
    assert(merged(one) =~= Seq::<u8>::empty());
    assert(merged(before) + Seq::<u8>::empty() =~= merged(before));
}

} // verus!
