//! The multicast aggregator: fan a service request out to a list of nodes,
//! one scoped request per target, and merge the service-text payloads of
//! the replies into one `service/multi` envelope. A failing target simply
//! contributes nothing; the merged order is the target order.

use vstd::prelude::*;
use vstd::string::*;
use vstd::utf8::encode_utf8;

use crate::chain::Chain;
use crate::message::{
    render_message_spec, CmdType, ContentResponse, ContentResponseView, ContentServiceText,
    ContentUri, Message, MessageContent, MessageContentView, MessageView, Response,
    ResponseContent, ResponseContentView,
};
use crate::node::Node;
use crate::text::{join_spec, join_str};
use crate::uri::{Uri, UriView};

verus! {

/// The service text a reply contributes, if it is of the expected shape.
pub open spec fn service_text_of(m: MessageView) -> Option<Seq<char>> {
    if m.cmd == CmdType::Response {
        match m.content {
            MessageContentView::Response(cr) => match cr.content {
                ResponseContentView::ServiceText(t) => Some(t),
                _ => None,
            },
            _ => None,
        }
    } else {
        None
    }
}

/// The service texts of the replies that carry one, in order.
pub open spec fn texts_of(replies: Seq<MessageView>) -> Seq<Seq<char>>
    decreases replies.len(),
{
    if replies.len() == 0 {
        Seq::empty()
    } else {
        let rest = texts_of(replies.drop_first());
        match service_text_of(replies[0]) {
            Some(t) => seq![t] + rest,
            None => rest,
        }
    }
}

/// The aggregated body: the extracted texts joined by the delimiter.
pub open spec fn aggregate_spec(replies: Seq<MessageView>) -> Seq<char> {
    join_spec(texts_of(replies), ";"@)
}

/// The one outbound envelope of an aggregation.
pub open spec fn multi_envelope(body: Seq<char>) -> MessageView {
    MessageView {
        cmd: CmdType::Response,
        content: MessageContentView::Response(
            ContentResponseView {
                code: Response::Okay,
                content: ResponseContentView::ServiceMulti(body),
            },
        ),
    }
}

pub open spec fn multi_envelope_bytes(body: Seq<char>) -> Seq<u8> {
    encode_utf8(render_message_spec(multi_envelope(body)))
}

/// Merges the service-text payloads of the given replies into one
/// `service/multi` envelope; a reply of another shape contributes nothing,
/// and zero contributions still give the well-formed empty envelope.
pub fn aggregate_responses(responses: &Vec<Message>) -> (r: Message)
    ensures
        r@ == multi_envelope(aggregate_spec(responses@.map_values(|m: Message| m@))),
{
    let ghost replies = responses@.map_values(|m: Message| m@);
    let mut texts: Vec<String> = Vec::new();
    let mut i: usize = 0;
    proof {
        assert(replies.skip(0) =~= replies);
        assert(texts_of(replies) =~= texts@.map_values(|t: String| t@) + texts_of(
            replies.skip(0),
        ));
    }
    while i < responses.len()
        invariant
            0 <= i <= responses@.len(),
            replies == responses@.map_values(|m: Message| m@),
            texts_of(replies) == texts@.map_values(|t: String| t@) + texts_of(
                replies.skip(i as int),
            ),
        decreases responses@.len() - i,
    {
        let ghost pre = texts@.map_values(|t: String| t@);
        let ghost tail = replies.skip(i as int);
        proof {
            assert(tail[0] == replies[i as int]);
            assert(tail.drop_first() =~= replies.skip(i + 1));
        }
        let m = &responses[i];
        if m.cmd == CmdType::Response {
            match &m.content {
                MessageContent::Response(cr) => match &cr.content {
                    ResponseContent::ServiceText(t) => {
                        texts.push(t.content.clone());
                        proof {
                            assert(texts@.map_values(|t: String| t@) =~= pre.push(
                                service_text_of(replies[i as int])->Some_0,
                            ));
                            assert(pre + (seq![service_text_of(replies[i as int])->Some_0]
                                + texts_of(replies.skip(i + 1))) =~= pre.push(
                                service_text_of(replies[i as int])->Some_0,
                            ) + texts_of(replies.skip(i + 1)));
                        }
                    },
                    _ => {},
                },
                _ => {},
            }
        }
        i = i + 1;
    }
    proof {
        assert(replies.skip(replies.len() as int) =~= Seq::<MessageView>::empty());
        assert(texts@.map_values(|t: String| t@) + Seq::<Seq<char>>::empty() =~= texts@.map_values(
            |t: String| t@,
        ));
    }
    let body = join_str(&texts, ";");
    Message::new(
        CmdType::Response,
        MessageContent::Response(
            ContentResponse {
                code: Response::Okay,
                content: ResponseContent::ServiceMulti(ContentServiceText { content: body }),
            },
        ),
    )
}

/// Fans the service request out to every given node, the route rewritten to
/// single out each target, and merges the replies. Every target is tried;
/// what a target returns is the transport's business, and a target whose
/// reply cannot be read contributes nothing.
pub fn multicast_message<C: Chain>(nodes: &Vec<Node>, uri: &mut Uri, chain: &C) -> (r: Message)
    ensures
        final(uri)@.gtn == old(uri)@.gtn,
        final(uri)@.res == old(uri)@.res,
        final(uri)@.query == old(uri)@.query,
        nodes@.len() == 0 ==> final(uri)@ == old(uri)@,
        exists|replies: Seq<MessageView>| r@ == multi_envelope(aggregate_spec(replies)),
        nodes@.len() == 0 ==> r@ == multi_envelope(Seq::empty()),
{
    let mut replies: Vec<Message> = Vec::new();
    let mut i: usize = 0;
    while i < nodes.len()
        invariant
            0 <= i <= nodes@.len(),
            uri@.gtn == old(uri)@.gtn,
            uri@.res == old(uri)@.res,
            uri@.query == old(uri)@.query,
            i == 0 ==> uri@ == old(uri)@,
            replies@.len() <= i,
        decreases nodes@.len() - i,
    {
        let node = &nodes[i];
        let rm = uri.route_mut();
        rm.clear();
        rm.push(node.springname().to_owned());
        let outbound = Message::new(
            CmdType::Service,
            MessageContent::Service(ContentUri { uri: uri.clone() }),
        );
        let out_bytes = outbound.to_bytes();
        match chain.request(&out_bytes, node) {
            Ok(b) => {
                match Message::from_bytes(b.as_slice()) {
                    Ok(m) => {
                        replies.push(m);
                    },
                    Err(_) => {},
                }
            },
            Err(_) => {},
        }
        i = i + 1;
    }
    let r = aggregate_responses(&replies);
    proof {
        let rv = replies@.map_values(|m: Message| m@);
        assert(r@ == multi_envelope(aggregate_spec(rv)));
        if nodes@.len() == 0 {
            assert(rv =~= Seq::<MessageView>::empty());
            assert(texts_of(rv) =~= Seq::<Seq<char>>::empty());
        }
    }
    r
}

/// As [`multicast_message`], serialized to wire bytes.
pub fn multicast_request<C: Chain>(nodes: &Vec<Node>, uri: &mut Uri, chain: &C) -> (r: Vec<u8>)
    ensures
        final(uri)@.gtn == old(uri)@.gtn,
        final(uri)@.res == old(uri)@.res,
        final(uri)@.query == old(uri)@.query,
        exists|replies: Seq<MessageView>| r@ == multi_envelope_bytes(aggregate_spec(replies)),
        nodes@.len() == 0 ==> r@ == multi_envelope_bytes(Seq::empty()),
{
    let m = multicast_message(nodes, uri, chain);
    let r = m.to_bytes();
    proof {
        let replies = choose|replies: Seq<MessageView>| m@ == multi_envelope(
            aggregate_spec(replies),
        );
        assert(r@ == multi_envelope_bytes(aggregate_spec(replies)));
    }
    r
}

} // verus!
