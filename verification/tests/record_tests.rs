use quick_xml::events::BytesStart;
use stack_etl::errors::XmlError;
use stack_etl::model::comment::Comment;
use stack_etl::model::post::{Post, PostHistory, PostLink};
use stack_etl::model::tag::Tag;
use stack_etl::model::user::User;
use stack_etl::model::vote::Vote;
use stack_etl::model::XmlModel;
use stack_etl::timestamp::Timestamp;

fn element(attributes: &str) -> BytesStart<'static> {
    BytesStart::from_content(format!("row {}", attributes), 3)
}

fn day(year: i32, month: u32, day: u32) -> Timestamp {
    Timestamp { year, month, day, hour: 12, minute: 30, second: 15, nanosecond: 250_000_000 }
}

fn text(s: &str) -> Option<String> {
    Some(String::from(s))
}

#[test]
fn comment_with_every_attribute() {
    let e = element(
        r#"Id="10" PostId="20" Score="-3" Text="Nice." CreationDate="2014-05-06T12:30:15.25" UserDisplayName="ann" UserId="30" ContentLicense="CC BY-SA 3.0""#,
    );
    assert_eq!(
        Comment::from_xml_element(&e).unwrap(),
        Comment {
            id: 10,
            post_id: Some(20),
            score: Some(-3),
            text: String::from("Nice."),
            creation_date: day(2014, 5, 6),
            user_display_name: text("ann"),
            user_id: Some(30),
            content_license: text("CC BY-SA 3.0"),
        }
    );
}

#[test]
fn post_with_every_attribute() {
    let e = element(
        r#"Id="1" PostTypeId="2" AcceptedAnswerId="3" CreationDate="2001-01-01T12:30:15.25" DeletionDate="2002-02-02T12:30:15.25" Score="4" ViewCount="5" Body="&lt;p&gt;b&lt;/p&gt;" OwnerUserId="6" OwnerDisplayName="owner" LastEditorUserId="7" LastEditorDisplayName="editor" LastEditDate="2003-03-03T12:30:15.25" LastActivityDate="2004-04-04T12:30:15.25" Title="title" Tags="&lt;a&gt;&lt;b&gt;" AnswerCount="8" CommentCount="9" FavoriteCount="10" CloseDate="2005-05-05T12:30:15.25" CommunityOwnedDate="2006-06-06T12:30:15.25" ContentLicense="CC0""#,
    );
    assert_eq!(
        Post::from_xml_element(&e).unwrap(),
        Post {
            id: 1,
            post_type_id: Some(2),
            accepted_answer_id: Some(3),
            creation_date: Some(day(2001, 1, 1)),
            deletion_date: Some(day(2002, 2, 2)),
            score: Some(4),
            view_count: Some(5),
            body: text("&lt;p&gt;b&lt;/p&gt;"),
            owner_user_id: Some(6),
            owner_display_name: text("owner"),
            last_editor_user_id: Some(7),
            last_editor_display_name: text("editor"),
            last_edit_date: Some(day(2003, 3, 3)),
            last_activity_date: Some(day(2004, 4, 4)),
            title: text("title"),
            tags: text("&lt;a&gt;&lt;b&gt;"),
            answer_count: Some(8),
            comment_count: Some(9),
            favorite_count: Some(10),
            close_date: Some(day(2005, 5, 5)),
            community_owned_date: Some(day(2006, 6, 6)),
            content_license: text("CC0"),
        }
    );
}

#[test]
fn post_with_its_id_alone() {
    let post = Post::from_xml_element(&element(r#"Id="77""#)).unwrap();
    assert_eq!(post, Post { id: 77, ..Post::default() });
    assert_eq!(post.close_date, None);
    assert_eq!(post.title, None);
}

#[test]
fn post_fails_on_each_kind_of_value() {
    let r = Post::from_xml_element(&element(r#"Id="1" PostTypeId="70000""#));
    assert!(matches!(r, Err(XmlError::IntegerParse(_))));
    let r = Post::from_xml_element(&element(r#"Id="1" ViewCount="many""#));
    assert!(matches!(r, Err(XmlError::IntegerParse(_))));
    let r = Post::from_xml_element(&element(r#"Id="1" CloseDate="soon""#));
    assert!(matches!(r, Err(XmlError::DateParse(_))));
}

#[test]
fn post_history_with_every_attribute() {
    let e = element(
        r#"Id="1" PostHistoryTypeId="2" PostId="3" RevisionGUID="0f0e-1a" CreationDate="2010-10-10T12:30:15.25" UserId="4" UserDisplayName="bob" Comment="typo" Text="new text" ContentLicense="CC BY-SA 4.0""#,
    );
    assert_eq!(
        PostHistory::from_xml_element(&e).unwrap(),
        PostHistory {
            id: 1,
            post_history_type_id: Some(2),
            post_id: Some(3),
            revision_guid: text("0f0e-1a"),
            creation_date: Some(day(2010, 10, 10)),
            user_id: Some(4),
            user_display_name: text("bob"),
            comment: text("typo"),
            text: text("new text"),
            content_license: text("CC BY-SA 4.0"),
        }
    );
}

#[test]
fn post_history_guid_name_is_upper_case() {
    let e = element(r#"Id="1" RevisionGuid="x""#);
    assert_eq!(PostHistory::from_xml_element(&e).unwrap().revision_guid, None);
}

#[test]
fn post_link_with_every_attribute() {
    let e = element(
        r#"Id="1" CreationDate="2012-12-12T12:30:15.25" PostId="2" RelatedPostId="3" LinkTypeId="1""#,
    );
    assert_eq!(
        PostLink::from_xml_element(&e).unwrap(),
        PostLink {
            id: 1,
            creation_date: day(2012, 12, 12),
            post_id: 2,
            related_post_id: 3,
            link_type_id: 1,
        }
    );
}

#[test]
fn tag_with_every_attribute() {
    let e = element(
        r#"Id="1" TagName="rust" Count="4000" ExcerptPostId="2" WikiPostId="3" IsModeratorOnly="1" IsRequired="0""#,
    );
    assert_eq!(
        Tag::from_xml_element(&e).unwrap(),
        Tag {
            id: 1,
            tag_name: text("rust"),
            count: 4000,
            excerpt_post_id: Some(2),
            wiki_post_id: Some(3),
            is_moderator_only: Some(1),
            is_required: Some(0),
        }
    );
}

#[test]
fn user_with_every_attribute() {
    let e = element(
        r#"Id="-1" Reputation="1" CreationDate="2008-08-08T12:30:15.25" DisplayName="Community" LastAccessDate="2009-09-09T12:30:15.25" WebsiteUrl="http://example.org" Location="on the server farm" AboutMe="&lt;p&gt;Hi&lt;/p&gt;" Views="100" UpVotes="200" DownVotes="300" ProfileImageUrl="http://example.org/i.png" EmailHash="abc" AccountId="-1""#,
    );
    assert_eq!(
        User::from_xml_element(&e).unwrap(),
        User {
            id: -1,
            reputation: 1,
            creation_date: day(2008, 8, 8),
            display_name: text("Community"),
            last_access_date: day(2009, 9, 9),
            website_url: text("http://example.org"),
            location: text("on the server farm"),
            about_me: text("&lt;p&gt;Hi&lt;/p&gt;"),
            views: Some(100),
            up_votes: Some(200),
            down_votes: Some(300),
            profile_image_url: text("http://example.org/i.png"),
            email_hash: text("abc"),
            account_id: Some(-1),
        }
    );
}

#[test]
fn vote_with_every_attribute() {
    let e = element(
        r#"Id="1" PostId="2" VoteTypeId="8" UserId="3" CreationDate="2016-06-16T12:30:15.25" BountyAmount="50""#,
    );
    assert_eq!(
        Vote::from_xml_element(&e).unwrap(),
        Vote {
            id: 1,
            post_id: 2,
            vote_type_id: 8,
            user_id: Some(3),
            creation_date: Some(day(2016, 6, 16)),
            bounty_amount: Some(50),
        }
    );
}

#[test]
fn empty_text_is_present_and_empty() {
    let tag = Tag::from_xml_element(&element(r#"Id="1" TagName="""#)).unwrap();
    assert_eq!(tag.tag_name, text(""));
    let tag = Tag::from_xml_element(&element(r#"Id="1""#)).unwrap();
    assert_eq!(tag.tag_name, None);
}

#[test]
fn records_of_one_entity_do_not_read_the_names_of_another() {
    let e = element(r#"Id="1" Reputation="5" TagBased="1" BountyAmount="9""#);
    assert_eq!(Tag::from_xml_element(&e).unwrap(), Tag { id: 1, ..Tag::default() });
    assert_eq!(
        Vote::from_xml_element(&e).unwrap(),
        Vote { id: 1, bounty_amount: Some(9), ..Vote::default() }
    );
}
