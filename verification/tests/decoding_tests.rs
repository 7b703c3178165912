use quick_xml::events::BytesStart;
use stack_etl::element::{is_row, Attribute};
use stack_etl::errors::XmlError;
use stack_etl::model::badge::Badge;
use stack_etl::model::comment::Comment;
use stack_etl::model::post::{Post, PostHistory, PostLink};
use stack_etl::model::tag::Tag;
use stack_etl::model::user::User;
use stack_etl::model::vote::Vote;
use stack_etl::model::{
    decode_attributes, decode_element, try_decode_element, FieldTable, XmlModel,
};
use stack_etl::number::IntegerFault;
use stack_etl::timestamp::Timestamp;

fn row(attributes: &str) -> BytesStart<'static> {
    BytesStart::from_content(format!("row {}", attributes), 3)
}

fn pair(key: &str, value: &str) -> Attribute {
    Attribute { key: key.as_bytes().to_vec(), value: value.as_bytes().to_vec() }
}

fn at(year: i32, month: u32, day: u32, hour: u32, minute: u32, second: u32, milli: u32) -> Timestamp {
    Timestamp { year, month, day, hour, minute, second, nanosecond: milli * 1_000_000 }
}

#[test]
fn badge_end_to_end() {
    let element = row(
        r#"Id="1" UserId="2" Name="Teacher" Date="2011-06-21T20:16:48.593" Class="3" TagBased="1""#,
    );
    let badge = Badge::from_xml_element(&element).unwrap();
    assert_eq!(
        badge,
        Badge {
            id: 1,
            user_id: 2,
            name: String::from("Teacher"),
            date: at(2011, 6, 21, 20, 16, 48, 593),
            class: 3,
            tag_based: true,
        }
    );
}

#[test]
fn badge_flag_written_as_a_word_is_not_set() {
    let element = row(
        r#"Id="1" UserId="2" Name="Teacher" Date="2011-06-21T20:16:48.593" Class="3" TagBased="False""#,
    );
    assert_eq!(Badge::from_xml_element(&element).unwrap().tag_based, false);
    let element = row(r#"Id="1" TagBased="True""#);
    assert_eq!(Badge::from_xml_element(&element).unwrap().tag_based, false);
    let element = row(r#"Id="1" TagBased="0""#);
    assert_eq!(Badge::from_xml_element(&element).unwrap().tag_based, false);
    let element = row(r#"Id="1" TagBased="""#);
    assert_eq!(Badge::from_xml_element(&element).unwrap().tag_based, false);
    let element = row(r#"Id="1""#);
    assert_eq!(Badge::from_xml_element(&element).unwrap().tag_based, false);
}

#[test]
fn decoding_the_same_element_twice_gives_the_same_record() {
    let element = row(r#"Id="9" UserId="4" Name="Scholar" Date="2012-01-02T03:04:05" Class="2""#);
    let first = Badge::from_xml_element(&element).unwrap();
    let second = Badge::from_xml_element(&element).unwrap();
    assert_eq!(first, second);
    let again = Badge::from_xml_element(&element.to_owned()).unwrap();
    assert_eq!(first, again);
}

#[test]
fn element_without_attributes_is_the_blank_record() {
    assert_eq!(Badge::from_xml_element(&row("")).unwrap(), Badge::default());
    assert_eq!(Comment::from_xml_element(&row("")).unwrap(), Comment::default());
    assert_eq!(Post::from_xml_element(&row("")).unwrap(), Post::default());
    assert_eq!(PostHistory::from_xml_element(&row("")).unwrap(), PostHistory::default());
    assert_eq!(PostLink::from_xml_element(&row("")).unwrap(), PostLink::default());
    assert_eq!(Tag::from_xml_element(&row("")).unwrap(), Tag::default());
    assert_eq!(User::from_xml_element(&row("")).unwrap(), User::default());
    assert_eq!(Vote::from_xml_element(&row("")).unwrap(), Vote::default());
    assert_eq!(Badge::from_xml_element(&BytesStart::new("row")).unwrap(), Badge::default());
}

#[test]
fn blank_records_hold_zero_empty_epoch_and_none() {
    let badge = Badge::default();
    assert_eq!(badge.id, 0);
    assert_eq!(badge.name, "");
    assert_eq!(badge.date, at(1970, 1, 1, 0, 0, 0, 0));
    assert_eq!(badge.class, 0);
    assert_eq!(badge.tag_based, false);
    let post = Post::default();
    assert_eq!(post.id, 0);
    assert_eq!(post.post_type_id, None);
    assert_eq!(post.creation_date, None);
    assert_eq!(post.body, None);
    let user = User::default();
    assert_eq!(user.creation_date, at(1970, 1, 1, 0, 0, 0, 0));
    assert_eq!(user.last_access_date, at(1970, 1, 1, 0, 0, 0, 0));
    assert_eq!(user.display_name, None);
    assert_eq!(Badge::unread(), Badge::default());
    assert_eq!(Vote::unread(), Vote::default());
}

#[test]
fn absent_attribute_leaves_its_field_at_the_default() {
    let badge = Badge::from_xml_element(&row(r#"Id="5" Name="Editor""#)).unwrap();
    assert_eq!(badge.id, 5);
    assert_eq!(badge.name, "Editor");
    assert_eq!(badge.user_id, 0);
    assert_eq!(badge.date, Timestamp::default());
    assert_eq!(badge.class, 0);
    assert_eq!(badge.tag_based, false);
    let comment = Comment::from_xml_element(&row(r#"Score="3""#)).unwrap();
    assert_eq!(comment.score, Some(3));
    assert_eq!(comment.id, 0);
    assert_eq!(comment.post_id, None);
    assert_eq!(comment.text, "");
    assert_eq!(comment.user_display_name, None);
    let vote = Vote::from_xml_element(&row(r#"Id="1" PostId="2" VoteTypeId="2""#)).unwrap();
    assert_eq!(vote.user_id, None);
    assert_eq!(vote.creation_date, None);
    assert_eq!(vote.bounty_amount, None);
}

#[test]
fn unknown_attribute_is_ignored() {
    let plain = Badge::from_xml_element(&row(r#"Id="5" Name="Editor" Class="1""#)).unwrap();
    let first = Badge::from_xml_element(&row(r#"Colour="red" Id="5" Name="Editor" Class="1""#));
    let middle = Badge::from_xml_element(&row(r#"Id="5" Colour="red" Name="Editor" Class="1""#));
    let last = Badge::from_xml_element(&row(r#"Id="5" Name="Editor" Class="1" Colour="red""#));
    assert_eq!(first.unwrap(), plain);
    assert_eq!(middle.unwrap(), plain);
    assert_eq!(last.unwrap(), plain);
}

#[test]
fn attribute_names_match_byte_for_byte() {
    let badge = Badge::from_xml_element(&row(r#"id="5" ID="6" UserID="7" name="x" Id ="8""#));
    assert_eq!(badge.unwrap(), Badge { id: 8, ..Badge::default() });
    let badge = Badge::from_xml_element(&row(r#"Ids="5" I="6" xId="7""#)).unwrap();
    assert_eq!(badge, Badge::default());
}

#[test]
fn unknown_attribute_may_hold_anything() {
    let list = vec![
        Attribute { key: b"Junk".to_vec(), value: vec![0xff, 0xfe] },
        pair("Id", "3"),
        Attribute { key: vec![0x80], value: b"not a number".to_vec() },
    ];
    let tag = decode_attributes::<Tag>(&list).unwrap();
    assert_eq!(tag, Tag { id: 3, ..Tag::default() });
}

#[test]
fn attribute_order_does_not_matter() {
    let one = Vote::from_xml_element(&row(r#"Id="1" PostId="2" VoteTypeId="3" UserId="4""#));
    let two = Vote::from_xml_element(&row(r#"UserId="4" VoteTypeId="3" PostId="2" Id="1""#));
    assert_eq!(one.unwrap(), two.unwrap());
}

#[test]
fn values_are_kept_raw() {
    let element = row(r#"Id="1" Text="a &lt; b &amp; c" CreationDate="2020-01-01T00:00:00""#);
    let comment = Comment::from_xml_element(&element).unwrap();
    assert_eq!(comment.text, "a &lt; b &amp; c");
    let element = row(r#"Id='1' Text='single "quoted"'"#);
    assert_eq!(Comment::from_xml_element(&element).unwrap().text, "single \"quoted\"");
}

#[test]
fn unparseable_integer_fails_the_record() {
    let r = Badge::from_xml_element(&row(r#"Id="one" UserId="2""#));
    assert!(matches!(r, Err(XmlError::IntegerParse(IntegerFault::InvalidDigit))));
    let r = Badge::from_xml_element(&row(r#"Id="1" Class="40000""#));
    assert!(matches!(r, Err(XmlError::IntegerParse(IntegerFault::PosOverflow))));
    let r = Badge::from_xml_element(&row(r#"Id="""#));
    assert!(matches!(r, Err(XmlError::IntegerParse(IntegerFault::Empty))));
    let r = Tag::from_xml_element(&row(r#"Id="1" IsRequired="True""#));
    assert!(matches!(r, Err(XmlError::IntegerParse(IntegerFault::InvalidDigit))));
}

#[test]
fn unparseable_date_fails_the_record() {
    let r = Badge::from_xml_element(&row(r#"Id="1" Date="not-a-date""#));
    assert!(matches!(r, Err(XmlError::DateParse(_))));
    let r = Vote::from_xml_element(&row(r#"Id="1" CreationDate="2011-06-21""#));
    assert!(matches!(r, Err(XmlError::DateParse(_))));
}

#[test]
fn first_failing_value_decides_the_failure() {
    let r = Badge::from_xml_element(&row(r#"Date="never" Id="x""#));
    assert!(matches!(r, Err(XmlError::DateParse(_))));
    let r = Badge::from_xml_element(&row(r#"Id="x" Date="never""#));
    assert!(matches!(r, Err(XmlError::IntegerParse(_))));
}

#[test]
fn malformed_attribute_fails_the_element() {
    let r = Badge::from_xml_element(&row(r#"Id="1" UserId"#));
    assert!(matches!(r, Err(XmlError::XmlParse(quick_xml::Error::InvalidAttr(_)))));
    let r = Badge::from_xml_element(&row(r#"Id="1" UserId=2"#));
    assert!(matches!(r, Err(XmlError::XmlParse(_))));
    let r = Badge::from_xml_element(&row(r#"Id="1" Name="open"#));
    assert!(matches!(r, Err(XmlError::XmlParse(_))));
    let r = Badge::from_xml_element(&row(r#"Id="1" Name="#));
    assert!(matches!(r, Err(XmlError::XmlParse(_))));
}

#[test]
fn repeated_attribute_fails_the_element() {
    let r = Badge::from_xml_element(&row(r#"Id="1" Id="2""#));
    assert!(matches!(r, Err(XmlError::XmlParse(_))));
    let r = Badge::from_xml_element(&row(r#"Junk="1" Junk="2""#));
    assert!(matches!(r, Err(XmlError::XmlParse(_))));
}

#[test]
fn malformed_attribute_comes_before_any_value() {
    let r = Badge::from_xml_element(&row(r#"Id="one" UserId"#));
    assert!(matches!(r, Err(XmlError::XmlParse(_))));
    let r = Badge::from_xml_element(&row(r#"Date="never" Id="1" Id="2""#));
    assert!(matches!(r, Err(XmlError::XmlParse(_))));
}

#[test]
fn decode_element_is_what_each_record_uses() {
    let element = row(r#"Id="3" Count="12" TagName="rust""#);
    let direct: Tag = decode_element(&element).unwrap();
    assert_eq!(direct, Tag::from_xml_element(&element).unwrap());
    assert_eq!(direct.count, 12);
}

#[test]
fn decode_attributes_reads_in_order() {
    let list = vec![pair("Id", "1"), pair("Id", "2"), pair("Count", "7")];
    let tag = decode_attributes::<Tag>(&list).unwrap();
    assert_eq!(tag.id, 2);
    assert_eq!(tag.count, 7);
    let list = vec![pair("Id", "1"), pair("Count", "x"), pair("Id", "y")];
    assert!(matches!(
        decode_attributes::<Tag>(&list),
        Err(XmlError::IntegerParse(IntegerFault::InvalidDigit))
    ));
    assert_eq!(decode_attributes::<Tag>(&[]).unwrap(), Tag::default());
}

#[test]
fn assign_reads_one_attribute() {
    let mut badge = Badge::default();
    badge.assign(b"Class", b"2").unwrap();
    assert_eq!(badge, Badge { class: 2, ..Badge::default() });
    badge.assign(b"Unknown", b"2").unwrap();
    assert_eq!(badge, Badge { class: 2, ..Badge::default() });
    assert!(badge.assign(b"Class", b"two").is_err());
    assert_eq!(badge, Badge { class: 2, ..Badge::default() });
    badge.assign(b"TagBased", b"1").unwrap();
    assert!(badge.tag_based);
    badge.assign(b"TagBased", b"yes").unwrap();
    assert!(!badge.tag_based);
}

#[test]
fn element_name_is_read_exactly() {
    assert!(is_row(&BytesStart::new("row")));
    assert!(is_row(&row(r#"Id="1""#)));
    assert!(!is_row(&BytesStart::new("Row")));
    assert!(!is_row(&BytesStart::new("rows")));
    assert!(!is_row(&BytesStart::new("ro")));
    assert!(!is_row(&BytesStart::from_content("rowset row=\"1\"", 6)));
    assert!(!is_row(&BytesStart::from_content("x:row a=\"1\"", 5)));
}

#[test]
fn element_with_a_name_past_its_end_is_not_sound() {
    let broken = BytesStart::from_content("row", 4);
    assert!(!is_row(&broken));
    assert!(try_decode_element::<Badge>(&broken).is_none());
    let broken = BytesStart::from_content("row Id=\"1\"", 100);
    assert!(!is_row(&broken));
    assert!(try_decode_element::<Tag>(&broken).is_none());
    let broken = BytesStart::from_content("", 1);
    assert!(try_decode_element::<Tag>(&broken).is_none());
}

#[test]
fn sound_element_of_any_making_decodes() {
    let whole = BytesStart::from_content("row", 3);
    assert_eq!(try_decode_element::<Tag>(&whole).unwrap().unwrap(), Tag::default());
    let empty = BytesStart::from_content("", 0);
    assert_eq!(try_decode_element::<Tag>(&empty).unwrap().unwrap(), Tag::default());
    let named = BytesStart::from_content("tag Id=\"4\"", 3);
    assert_eq!(try_decode_element::<Tag>(&named).unwrap().unwrap().id, 4);
    let inside = BytesStart::from_content("row Id=\"4\"", 1);
    assert!(matches!(try_decode_element::<Tag>(&inside), Some(Err(XmlError::XmlParse(_)))));
    let r = try_decode_element::<Tag>(&row(r#"Id="x""#));
    assert!(matches!(r, Some(Err(XmlError::IntegerParse(_)))));
}
