//! Webhook message payloads and their wire rendering.
//!
//! Each message kind renders to a JSON object tagged by `msgtype`; the
//! rendering is a verified function of the payload, stated byte for byte.

use vstd::prelude::*;

use crate::json::{
    json_bool_value, json_member, json_str_value, push_json_array, push_json_object,
    spec_json_array, spec_json_bool, spec_json_member, spec_json_object, spec_json_str,
};

verus! {

/// Multi-button `actionCard` button item.
#[derive(Debug, Clone)]
pub struct ActionCardButton {
    /// Button title.
    pub title: String,
    /// Redirect URL after clicking the button.
    pub action_url: String,
}

impl ActionCardButton {
    /// Creates an action-card button.
    pub fn new(title: String, action_url: String) -> (r: Self)
        ensures
            r.title@ == title@,
            r.action_url@ == action_url@,
    {
        Self { title, action_url }
    }
}

/// `feedCard` link item.
#[derive(Debug, Clone)]
pub struct FeedCardLink {
    /// Link title.
    pub title: String,
    /// Message jump URL.
    pub message_url: String,
    /// Image URL.
    pub pic_url: String,
}

impl FeedCardLink {
    /// Creates a feed-card link.
    pub fn new(title: String, message_url: String, pic_url: String) -> (r: Self)
        ensures
            r.title@ == title@,
            r.message_url@ == message_url@,
            r.pic_url@ == pic_url@,
    {
        Self { title, message_url, pic_url }
    }
}

/// The mention list attached to text and markdown messages.
#[derive(Debug, Clone)]
pub struct At {
    /// Mobile numbers to mention.
    pub at_mobiles: Option<Vec<String>>,
    /// User ids to mention.
    pub at_user_ids: Option<Vec<String>>,
    /// Whether to mention everyone.
    pub is_at_all: Option<bool>,
}

/// The mention list owed for the given fields: present exactly when one
/// of them is given.
pub open spec fn spec_at_of(
    at_mobiles: Option<Vec<String>>,
    at_user_ids: Option<Vec<String>>,
    is_at_all: Option<bool>,
) -> Option<At> {
    if at_mobiles is Some || at_user_ids is Some || is_at_all is Some {
        Some(At { at_mobiles, at_user_ids, is_at_all })
    } else {
        None
    }
}

/// Builds the mention list, or nothing when no mention field is given.
pub fn build_at(
    at_mobiles: Option<Vec<String>>,
    at_user_ids: Option<Vec<String>>,
    is_at_all: Option<bool>,
) -> (r: Option<At>)
    ensures
        r == spec_at_of(at_mobiles, at_user_ids, is_at_all),
{
    if at_mobiles.is_some() || at_user_ids.is_some() || is_at_all.is_some() {
        Some(At { at_mobiles, at_user_ids, is_at_all })
    } else {
        None
    }
}

/// A webhook message of one of the supported kinds.
#[derive(Debug, Clone)]
pub enum WebhookMessage {
    /// A plain text message.
    Text {
        /// The text content.
        content: String,
        /// The mention list, if any.
        at: Option<At>,
    },
    /// A link card.
    Link {
        /// Card title.
        title: String,
        /// Card text.
        text: String,
        /// Jump URL.
        message_url: String,
        /// Optional picture URL.
        pic_url: Option<String>,
    },
    /// A markdown message.
    Markdown {
        /// Message title.
        title: String,
        /// Markdown text.
        text: String,
        /// The mention list, if any.
        at: Option<At>,
    },
    /// An action card, either with one jump target or with buttons.
    ActionCard {
        /// Card title.
        title: String,
        /// Card text.
        text: String,
        /// Optional button orientation.
        btn_orientation: Option<String>,
        /// Title of the single jump button, if any.
        single_title: Option<String>,
        /// URL of the single jump button, if any.
        single_url: Option<String>,
        /// The button list, if any.
        btns: Option<Vec<ActionCardButton>>,
    },
    /// A feed card of links.
    FeedCard {
        /// The link items.
        links: Vec<FeedCardLink>,
    },
}

/// The rendering of a JSON string array member value.
pub open spec fn spec_str_array_value(items: Seq<String>) -> Seq<u8> {
    spec_json_array(items.map_values(|s: String| spec_json_str(s@)))
}

/// The object members of a mention list: each field only when present.
pub open spec fn spec_at_members(at: At) -> Seq<Seq<u8>> {
    (match at.at_mobiles {
        Some(v) => seq![spec_json_member(("atMobiles")@, spec_str_array_value(v@))],
        None => Seq::<Seq<u8>>::empty(),
    }) + (match at.at_user_ids {
        Some(v) => seq![spec_json_member(("atUserIds")@, spec_str_array_value(v@))],
        None => Seq::<Seq<u8>>::empty(),
    }) + (match at.is_at_all {
        Some(b) => seq![spec_json_member(("isAtAll")@, spec_json_bool(b))],
        None => Seq::<Seq<u8>>::empty(),
    })
}

/// The rendering of a mention list.
pub open spec fn spec_at_json(at: At) -> Seq<u8> {
    spec_json_object(spec_at_members(at))
}

/// The trailing `at` member, present only when a mention list is attached.
pub open spec fn spec_at_tail(at: Option<At>) -> Seq<Seq<u8>> {
    match at {
        Some(a) => seq![spec_json_member(("at")@, spec_at_json(a))],
        None => Seq::<Seq<u8>>::empty(),
    }
}

/// The rendering of one action-card button.
pub open spec fn spec_button_json(b: ActionCardButton) -> Seq<u8> {
    spec_json_object(
        seq![
            spec_json_member(("title")@, spec_json_str(b.title@)),
            spec_json_member(("actionURL")@, spec_json_str(b.action_url@)),
        ],
    )
}

/// The rendering of one feed-card link.
pub open spec fn spec_feed_link_json(l: FeedCardLink) -> Seq<u8> {
    spec_json_object(
        seq![
            spec_json_member(("title")@, spec_json_str(l.title@)),
            spec_json_member(("messageURL")@, spec_json_str(l.message_url@)),
            spec_json_member(("picURL")@, spec_json_str(l.pic_url@)),
        ],
    )
}

/// The object members of an action card: the optional fields only when
/// present.
pub open spec fn spec_action_card_members(
    title: Seq<char>,
    text: Seq<char>,
    btn_orientation: Option<Seq<char>>,
    single_title: Option<Seq<char>>,
    single_url: Option<Seq<char>>,
    btns: Option<Vec<ActionCardButton>>,
) -> Seq<Seq<u8>> {
    seq![
        spec_json_member(("title")@, spec_json_str(title)),
        spec_json_member(("text")@, spec_json_str(text)),
    ] + (match btn_orientation {
        Some(s) => seq![spec_json_member(("btnOrientation")@, spec_json_str(s))],
        None => Seq::<Seq<u8>>::empty(),
    }) + (match single_title {
        Some(s) => seq![spec_json_member(("singleTitle")@, spec_json_str(s))],
        None => Seq::<Seq<u8>>::empty(),
    }) + (match single_url {
        Some(s) => seq![spec_json_member(("singleURL")@, spec_json_str(s))],
        None => Seq::<Seq<u8>>::empty(),
    }) + (match btns {
        Some(v) => seq![
            spec_json_member(
                ("btns")@,
                spec_json_array(v@.map_values(|b: ActionCardButton| spec_button_json(b))),
            ),
        ],
        None => Seq::<Seq<u8>>::empty(),
    })
}

/// The rendering of a text message with the given content and mentions.
pub open spec fn spec_text_message_json(content: Seq<char>, at: Option<At>) -> Seq<u8> {
    spec_json_object(
        seq![
            spec_json_member(("msgtype")@, spec_json_str(("text")@)),
            spec_json_member(
                ("text")@,
                spec_json_object(
                    seq![spec_json_member(("content")@, spec_json_str(content))],
                ),
            ),
        ] + spec_at_tail(at),
    )
}

/// The object members of a link card: the picture only when present.
pub open spec fn spec_link_members(
    title: Seq<char>,
    text: Seq<char>,
    message_url: Seq<char>,
    pic_url: Option<Seq<char>>,
) -> Seq<Seq<u8>> {
    seq![
        spec_json_member(("title")@, spec_json_str(title)),
        spec_json_member(("text")@, spec_json_str(text)),
        spec_json_member(("messageUrl")@, spec_json_str(message_url)),
    ] + (match pic_url {
        Some(p) => seq![spec_json_member(("picUrl")@, spec_json_str(p))],
        None => Seq::<Seq<u8>>::empty(),
    })
}

/// The rendering of a link message.
pub open spec fn spec_link_message_json(
    title: Seq<char>,
    text: Seq<char>,
    message_url: Seq<char>,
    pic_url: Option<Seq<char>>,
) -> Seq<u8> {
    spec_json_object(
        seq![
            spec_json_member(("msgtype")@, spec_json_str(("link")@)),
            spec_json_member(
                ("link")@,
                spec_json_object(spec_link_members(title, text, message_url, pic_url)),
            ),
        ],
    )
}

/// The rendering of a markdown message.
pub open spec fn spec_markdown_message_json(
    title: Seq<char>,
    text: Seq<char>,
    at: Option<At>,
) -> Seq<u8> {
    spec_json_object(
        seq![
            spec_json_member(("msgtype")@, spec_json_str(("markdown")@)),
            spec_json_member(
                ("markdown")@,
                spec_json_object(
                    seq![
                        spec_json_member(("title")@, spec_json_str(title)),
                        spec_json_member(("text")@, spec_json_str(text)),
                    ],
                ),
            ),
        ] + spec_at_tail(at),
    )
}

/// The rendering of an action card.
pub open spec fn spec_action_card_message_json(
    title: Seq<char>,
    text: Seq<char>,
    btn_orientation: Option<Seq<char>>,
    single_title: Option<Seq<char>>,
    single_url: Option<Seq<char>>,
    btns: Option<Vec<ActionCardButton>>,
) -> Seq<u8> {
    spec_json_object(
        seq![
            spec_json_member(("msgtype")@, spec_json_str(("actionCard")@)),
            spec_json_member(
                ("actionCard")@,
                spec_json_object(
                    spec_action_card_members(
                        title,
                        text,
                        btn_orientation,
                        single_title,
                        single_url,
                        btns,
                    ),
                ),
            ),
        ],
    )
}

/// The rendering of a feed card.
pub open spec fn spec_feed_card_message_json(links: Vec<FeedCardLink>) -> Seq<u8> {
    spec_json_object(
        seq![
            spec_json_member(("msgtype")@, spec_json_str(("feedCard")@)),
            spec_json_member(
                ("feedCard")@,
                spec_json_object(
                    seq![
                        spec_json_member(
                            ("links")@,
                            spec_json_array(
                                links@.map_values(|l: FeedCardLink| spec_feed_link_json(l)),
                            ),
                        ),
                    ],
                ),
            ),
        ],
    )
}

/// The wire rendering of a webhook message: a JSON object tagged by
/// `msgtype`, holding the payload under the kind's own key, with optional
/// fields only when present.
pub open spec fn spec_webhook_message_json(m: WebhookMessage) -> Seq<u8> {
    match m {
        WebhookMessage::Text { content, at } => spec_text_message_json(content@, at),
        WebhookMessage::Link { title, text, message_url, pic_url } => spec_link_message_json(
            title@,
            text@,
            message_url@,
            pic_url.deep_view(),
        ),
        WebhookMessage::Markdown { title, text, at } => spec_markdown_message_json(
            title@,
            text@,
            at,
        ),
        WebhookMessage::ActionCard {
            title,
            text,
            btn_orientation,
            single_title,
            single_url,
            btns,
        } => spec_action_card_message_json(
            title@,
            text@,
            btn_orientation.deep_view(),
            single_title.deep_view(),
            single_url.deep_view(),
            btns,
        ),
        WebhookMessage::FeedCard { links } => spec_feed_card_message_json(links),
    }
}

/// Renders a JSON string array value.
fn str_array_value(items: &Vec<String>) -> (r: Vec<u8>)
    ensures
        r@ == spec_str_array_value(items@),
{
    let mut members: Vec<Vec<u8>> = Vec::new();
    let n = items.len();
    for i in 0..n
        invariant
            n == items@.len(),
            members.deep_view() =~~= items@.subrange(0, i as int).map_values(
                |s: String| spec_json_str(s@),
            ),
    {
        members.push(json_str_value(items[i].as_str()));
        proof {
            assert(items@.subrange(0, i + 1 as int).map_values(|s: String| spec_json_str(s@))
                =~~= items@.subrange(0, i as int).map_values(|s: String| spec_json_str(s@)).push(
                spec_json_str(items@[i as int]@),
            ));
        }
    }
    proof {
        assert(items@.subrange(0, n as int) =~= items@);
    }
    let mut out: Vec<u8> = Vec::new();
    push_json_array(&mut out, &members);
    out
}

/// Renders a mention list.
fn at_value(at: &At) -> (r: Vec<u8>)
    ensures
        r@ == spec_at_json(*at),
{
    let mut members: Vec<Vec<u8>> = Vec::new();
    if let Some(v) = &at.at_mobiles {
        members.push(json_member("atMobiles", str_array_value(v)));
    }
    if let Some(v) = &at.at_user_ids {
        members.push(json_member("atUserIds", str_array_value(v)));
    }
    if let Some(b) = &at.is_at_all {
        members.push(json_member("isAtAll", json_bool_value(*b)));
    }
    proof {
        assert(members.deep_view() =~~= spec_at_members(*at));
    }
    let mut out: Vec<u8> = Vec::new();
    push_json_object(&mut out, &members);
    out
}

impl WebhookMessage {
    /// Renders the message to its wire JSON.
    pub fn to_json(&self) -> (r: Vec<u8>)
        ensures
            r@ == spec_webhook_message_json(*self),
    {
        match self {
            WebhookMessage::Text { content, at } => text_message_json(content, at),
            WebhookMessage::Link { title, text, message_url, pic_url } => link_message_json(
                title,
                text,
                message_url,
                pic_url,
            ),
            WebhookMessage::Markdown { title, text, at } => markdown_message_json(
                title,
                text,
                at,
            ),
            WebhookMessage::ActionCard {
                title,
                text,
                btn_orientation,
                single_title,
                single_url,
                btns,
            } => action_card_json(title, text, btn_orientation, single_title, single_url, btns),
            WebhookMessage::FeedCard { links } => feed_card_json(links),
        }
    }
}

/// Renders a text message.
fn text_message_json(content: &String, at: &Option<At>) -> (r: Vec<u8>)
    ensures
        r@ == spec_text_message_json(content@, *at),
{
    let mut members: Vec<Vec<u8>> = Vec::new();
    members.push(json_member("msgtype", json_str_value("text")));
    let mut inner: Vec<Vec<u8>> = Vec::new();
    inner.push(json_member("content", json_str_value(content.as_str())));
    proof {
        assert(inner.deep_view() =~~= seq![
            spec_json_member(("content")@, spec_json_str(content@)),
        ]);
    }
    let mut obj: Vec<u8> = Vec::new();
    push_json_object(&mut obj, &inner);
    members.push(json_member("text", obj));
    if let Some(a) = at {
        members.push(json_member("at", at_value(a)));
    }
    proof {
        assert(members.deep_view() =~~= seq![
            spec_json_member(("msgtype")@, spec_json_str(("text")@)),
            spec_json_member(
                ("text")@,
                spec_json_object(
                    seq![spec_json_member(("content")@, spec_json_str(content@))],
                ),
            ),
        ] + spec_at_tail(*at));
    }
    let mut out: Vec<u8> = Vec::new();
    push_json_object(&mut out, &members);
    proof {
        assert(out@ =~= spec_json_object(members.deep_view()));
    }
    out
}

/// Renders a link message.
fn link_message_json(
    title: &String,
    text: &String,
    message_url: &String,
    pic_url: &Option<String>,
) -> (r: Vec<u8>)
    ensures
        r@ == spec_link_message_json(title@, text@, message_url@, pic_url.deep_view()),
{
    let mut inner: Vec<Vec<u8>> = Vec::new();
    inner.push(json_member("title", json_str_value(title.as_str())));
    inner.push(json_member("text", json_str_value(text.as_str())));
    inner.push(json_member("messageUrl", json_str_value(message_url.as_str())));
    if let Some(p) = pic_url {
        inner.push(json_member("picUrl", json_str_value(p.as_str())));
    }
    proof {
        assert(inner.deep_view() =~~= spec_link_members(
            title@,
            text@,
            message_url@,
            pic_url.deep_view(),
        ));
    }
    let ghost innerv = inner.deep_view();
    let mut obj: Vec<u8> = Vec::new();
    push_json_object(&mut obj, &inner);
    let ghost objv = obj@;
    proof {
        assert(objv =~= spec_json_object(innerv));
    }
    let mut members: Vec<Vec<u8>> = Vec::new();
    members.push(json_member("msgtype", json_str_value("link")));
    members.push(json_member("link", obj));
    proof {
        assert(members.deep_view() =~~= seq![
            spec_json_member(("msgtype")@, spec_json_str(("link")@)),
            spec_json_member(("link")@, objv),
        ]);
    }
    let mut out: Vec<u8> = Vec::new();
    push_json_object(&mut out, &members);
    proof {
        assert(out@ =~= spec_json_object(members.deep_view()));
    }
    out
}

/// Renders a markdown message.
fn markdown_message_json(title: &String, text: &String, at: &Option<At>) -> (r: Vec<u8>)
    ensures
        r@ == spec_markdown_message_json(title@, text@, *at),
{
    let mut inner: Vec<Vec<u8>> = Vec::new();
    inner.push(json_member("title", json_str_value(title.as_str())));
    inner.push(json_member("text", json_str_value(text.as_str())));
    proof {
        assert(inner.deep_view() =~~= seq![
            spec_json_member(("title")@, spec_json_str(title@)),
            spec_json_member(("text")@, spec_json_str(text@)),
        ]);
    }
    let ghost innerv = inner.deep_view();
    let mut obj: Vec<u8> = Vec::new();
    push_json_object(&mut obj, &inner);
    let ghost objv = obj@;
    proof {
        assert(objv =~= spec_json_object(innerv));
    }
    let mut members: Vec<Vec<u8>> = Vec::new();
    members.push(json_member("msgtype", json_str_value("markdown")));
    members.push(json_member("markdown", obj));
    if let Some(a) = at {
        members.push(json_member("at", at_value(a)));
    }
    proof {
        assert(members.deep_view() =~~= seq![
            spec_json_member(("msgtype")@, spec_json_str(("markdown")@)),
            spec_json_member(("markdown")@, objv),
        ] + spec_at_tail(*at));
    }
    let mut out: Vec<u8> = Vec::new();
    push_json_object(&mut out, &members);
    proof {
        assert(out@ =~= spec_json_object(members.deep_view()));
    }
    out
}

/// Renders an action card.
fn action_card_json(
    title: &String,
    text: &String,
    btn_orientation: &Option<String>,
    single_title: &Option<String>,
    single_url: &Option<String>,
    btns: &Option<Vec<ActionCardButton>>,
) -> (r: Vec<u8>)
    ensures
        r@ == spec_action_card_message_json(
            title@,
            text@,
            btn_orientation.deep_view(),
            single_title.deep_view(),
            single_url.deep_view(),
            *btns,
        ),
{
    let mut inner: Vec<Vec<u8>> = Vec::new();
    inner.push(json_member("title", json_str_value(title.as_str())));
    inner.push(json_member("text", json_str_value(text.as_str())));
    if let Some(s) = btn_orientation {
        inner.push(json_member("btnOrientation", json_str_value(s.as_str())));
    }
    if let Some(s) = single_title {
        inner.push(json_member("singleTitle", json_str_value(s.as_str())));
    }
    if let Some(s) = single_url {
        inner.push(json_member("singleURL", json_str_value(s.as_str())));
    }
    if let Some(v) = btns {
        inner.push(json_member("btns", buttons_value(v)));
    }
    proof {
        assert(inner.deep_view() =~~= spec_action_card_members(
            title@,
            text@,
            btn_orientation.deep_view(),
            single_title.deep_view(),
            single_url.deep_view(),
            *btns,
        ));
    }
    let ghost innerv = inner.deep_view();
    let mut obj: Vec<u8> = Vec::new();
    push_json_object(&mut obj, &inner);
    let ghost objv = obj@;
    proof {
        assert(objv =~= spec_json_object(innerv));
    }
    let mut members: Vec<Vec<u8>> = Vec::new();
    members.push(json_member("msgtype", json_str_value("actionCard")));
    members.push(json_member("actionCard", obj));
    proof {
        assert(members.deep_view() =~~= seq![
            spec_json_member(("msgtype")@, spec_json_str(("actionCard")@)),
            spec_json_member(("actionCard")@, objv),
        ]);
    }
    let mut out: Vec<u8> = Vec::new();
    push_json_object(&mut out, &members);
    proof {
        assert(out@ =~= spec_json_object(members.deep_view()));
    }
    out
}

/// Renders a feed card.
fn feed_card_json(links: &Vec<FeedCardLink>) -> (r: Vec<u8>)
    ensures
        r@ == spec_feed_card_message_json(*links),
{
    let mut inner: Vec<Vec<u8>> = Vec::new();
    inner.push(json_member("links", feed_links_value(links)));
    proof {
        assert(inner.deep_view() =~~= seq![
            spec_json_member(
                ("links")@,
                spec_json_array(links@.map_values(|l: FeedCardLink| spec_feed_link_json(l))),
            ),
        ]);
    }
    let ghost innerv = inner.deep_view();
    let mut obj: Vec<u8> = Vec::new();
    push_json_object(&mut obj, &inner);
    let ghost objv = obj@;
    proof {
        assert(objv =~= spec_json_object(innerv));
    }
    let mut members: Vec<Vec<u8>> = Vec::new();
    members.push(json_member("msgtype", json_str_value("feedCard")));
    members.push(json_member("feedCard", obj));
    proof {
        assert(members.deep_view() =~~= seq![
            spec_json_member(("msgtype")@, spec_json_str(("feedCard")@)),
            spec_json_member(("feedCard")@, objv),
        ]);
    }
    let mut out: Vec<u8> = Vec::new();
    push_json_object(&mut out, &members);
    proof {
        assert(out@ =~= spec_json_object(members.deep_view()));
    }
    out
}

/// Renders an action-card button list value.
fn buttons_value(btns: &Vec<ActionCardButton>) -> (r: Vec<u8>)
    ensures
        r@ == spec_json_array(btns@.map_values(|b: ActionCardButton| spec_button_json(b))),
{
    let mut members: Vec<Vec<u8>> = Vec::new();
    let n = btns.len();
    for i in 0..n
        invariant
            n == btns@.len(),
            members.deep_view() =~~= btns@.subrange(0, i as int).map_values(
                |b: ActionCardButton| spec_button_json(b),
            ),
    {
        let b = &btns[i];
        let mut inner: Vec<Vec<u8>> = Vec::new();
        inner.push(json_member("title", json_str_value(b.title.as_str())));
        inner.push(json_member("actionURL", json_str_value(b.action_url.as_str())));
        let mut obj: Vec<u8> = Vec::new();
        push_json_object(&mut obj, &inner);
        proof {
            assert(inner.deep_view() =~~= seq![
                spec_json_member(("title")@, spec_json_str(b.title@)),
                spec_json_member(("actionURL")@, spec_json_str(b.action_url@)),
            ]);
        }
        members.push(obj);
        proof {
            assert(btns@.subrange(0, i + 1 as int).map_values(
                |b: ActionCardButton| spec_button_json(b),
            ) =~~= btns@.subrange(0, i as int).map_values(
                |b: ActionCardButton| spec_button_json(b),
            ).push(spec_button_json(btns@[i as int])));
        }
    }
    proof {
        assert(btns@.subrange(0, n as int) =~= btns@);
    }
    let mut out: Vec<u8> = Vec::new();
    push_json_array(&mut out, &members);
    out
}

/// Renders a feed-card link list value.
fn feed_links_value(links: &Vec<FeedCardLink>) -> (r: Vec<u8>)
    ensures
        r@ == spec_json_array(links@.map_values(|l: FeedCardLink| spec_feed_link_json(l))),
{
    let mut members: Vec<Vec<u8>> = Vec::new();
    let n = links.len();
    for i in 0..n
        invariant
            n == links@.len(),
            members.deep_view() =~~= links@.subrange(0, i as int).map_values(
                |l: FeedCardLink| spec_feed_link_json(l),
            ),
    {
        let l = &links[i];
        let mut inner: Vec<Vec<u8>> = Vec::new();
        inner.push(json_member("title", json_str_value(l.title.as_str())));
        inner.push(json_member("messageURL", json_str_value(l.message_url.as_str())));
        inner.push(json_member("picURL", json_str_value(l.pic_url.as_str())));
        let mut obj: Vec<u8> = Vec::new();
        push_json_object(&mut obj, &inner);
        proof {
            assert(inner.deep_view() =~~= seq![
                spec_json_member(("title")@, spec_json_str(l.title@)),
                spec_json_member(("messageURL")@, spec_json_str(l.message_url@)),
                spec_json_member(("picURL")@, spec_json_str(l.pic_url@)),
            ]);
        }
        members.push(obj);
        proof {
            assert(links@.subrange(0, i + 1 as int).map_values(
                |l: FeedCardLink| spec_feed_link_json(l),
            ) =~~= links@.subrange(0, i as int).map_values(
                |l: FeedCardLink| spec_feed_link_json(l),
            ).push(spec_feed_link_json(links@[i as int])));
        }
    }
    proof {
        assert(links@.subrange(0, n as int) =~= links@);
    }
    let mut out: Vec<u8> = Vec::new();
    push_json_array(&mut out, &members);
    out
}

} // verus!
