//! Factory records as the client returns them, and their flat forms made
//! of owned C strings.

use vstd::prelude::*;
use vstd::utf8::{encode_utf8, is_ascii_chars_encode_utf8};
use crate::ctext::{allocate_cstring, c_bytes_of, lemma_cstring_round_trip, nul_free, text_of, CText, TextError};

verus! {

/// The text of an optional field: absent text is the empty text.
pub open spec fn opt_text(o: Option<String>) -> Seq<char> {
    match o {
        Some(s) => s@,
        None => Seq::empty(),
    }
}

/// True when the text can become a C string.
pub open spec fn c_ready(s: Seq<char>) -> bool {
    nul_free(encode_utf8(s))
}

/// The text that marks an error record.
pub open spec fn error_marker() -> Seq<char> {
    seq!['E', 'R', 'R', 'O', 'R']
}

/// A robot of a factory listing, as the client returns it. The two ratings
/// are carried as the bit patterns of their 32-bit floats.
pub struct RobotListInfo {
    pub item_id: usize,
    pub item_name: String,
    pub item_description: String,
    pub thumbnail: String,
    pub added_by: String,
    pub added_by_display_name: String,
    pub added_date: String,
    pub expiry_date: String,
    pub cpu: usize,
    pub total_robot_ranking: usize,
    pub rent_count: usize,
    pub buy_count: usize,
    pub buyable: bool,
    pub removed_date: Option<String>,
    pub ban_date: Option<String>,
    pub featured: bool,
    pub banner_message: Option<String>,
    pub combat_rating_bits: u32,
    pub cosmetic_rating_bits: u32,
    pub cube_amounts: String,
}

/// A robot's full record, as the client returns it: the listing fields and
/// the two base64 streams of its geometry.
pub struct RobotGetInfo {
    pub summary: RobotListInfo,
    pub cube_data: String,
    pub colour_data: String,
}

/// The flat form of a listed robot: every text is an owned C string.
pub struct FactoryRobotListInfoC {
    pub item_id: u32,
    pub item_name: CText,
    pub item_description: CText,
    pub thumbnail: CText,
    pub added_by: CText,
    pub added_by_display_name: CText,
    pub added_date: CText,
    pub expiry_date: CText,
    pub cpu: u32,
    pub total_robot_ranking: u32,
    pub rent_count: u32,
    pub buy_count: u32,
    pub buyable: bool,
    pub removed_date: CText,
    pub ban_date: CText,
    pub featured: bool,
    pub banner_message: CText,
    pub combat_rating_bits: u32,
    pub cosmetic_rating_bits: u32,
    pub cube_amounts: CText,
}

/// The flat form of a robot's full record.
pub struct FactoryRobotGetInfoC {
    pub summary: FactoryRobotListInfoC,
    pub cube_data: CText,
    pub colour_data: CText,
}

impl FactoryRobotListInfoC {
    /// Every text field is a well-formed C string.
    pub open spec fn wf(&self) -> bool {
        &&& self.item_name.wf()
        &&& self.item_description.wf()
        &&& self.thumbnail.wf()
        &&& self.added_by.wf()
        &&& self.added_by_display_name.wf()
        &&& self.added_date.wf()
        &&& self.expiry_date.wf()
        &&& self.removed_date.wf()
        &&& self.ban_date.wf()
        &&& self.banner_message.wf()
        &&& self.cube_amounts.wf()
    }

    /// The record holds the values of `d`: integers narrowed to 32 bits,
    /// absent texts as empty ones.
    pub open spec fn holds(&self, d: RobotListInfo) -> bool {
        &&& self.item_id == d.item_id as u32
        &&& self.item_name@ == c_bytes_of(d.item_name@)
        &&& self.item_description@ == c_bytes_of(d.item_description@)
        &&& self.thumbnail@ == c_bytes_of(d.thumbnail@)
        &&& self.added_by@ == c_bytes_of(d.added_by@)
        &&& self.added_by_display_name@ == c_bytes_of(d.added_by_display_name@)
        &&& self.added_date@ == c_bytes_of(d.added_date@)
        &&& self.expiry_date@ == c_bytes_of(d.expiry_date@)
        &&& self.cpu == d.cpu as u32
        &&& self.total_robot_ranking == d.total_robot_ranking as u32
        &&& self.rent_count == d.rent_count as u32
        &&& self.buy_count == d.buy_count as u32
        &&& self.buyable == d.buyable
        &&& self.removed_date@ == c_bytes_of(opt_text(d.removed_date))
        &&& self.ban_date@ == c_bytes_of(opt_text(d.ban_date))
        &&& self.featured == d.featured
        &&& self.banner_message@ == c_bytes_of(opt_text(d.banner_message))
        &&& self.combat_rating_bits == d.combat_rating_bits
        &&& self.cosmetic_rating_bits == d.cosmetic_rating_bits
        &&& self.cube_amounts@ == c_bytes_of(d.cube_amounts@)
    }

    /// Every field but the id, the name, the thumbnail and the two author
    /// fields is zero, false or the empty text.
    pub open spec fn rest_default(&self) -> bool {
        &&& self.item_description@ == c_bytes_of(Seq::empty())
        &&& self.added_date@ == c_bytes_of(Seq::empty())
        &&& self.expiry_date@ == c_bytes_of(Seq::empty())
        &&& self.cpu == 0 && self.total_robot_ranking == 0
        &&& self.rent_count == 0 && self.buy_count == 0
        &&& !self.buyable && !self.featured
        &&& self.removed_date@ == c_bytes_of(Seq::empty())
        &&& self.ban_date@ == c_bytes_of(Seq::empty())
        &&& self.banner_message@ == c_bytes_of(Seq::empty())
        &&& self.combat_rating_bits == 0 && self.cosmetic_rating_bits == 0
        &&& self.cube_amounts@ == c_bytes_of(Seq::empty())
    }

    /// Every field but the id is zero, false or the empty text.
    pub open spec fn holds_defaults(&self) -> bool {
        &&& self.item_name@ == c_bytes_of(Seq::empty())
        &&& self.thumbnail@ == c_bytes_of(Seq::empty())
        &&& self.added_by@ == c_bytes_of(Seq::empty())
        &&& self.added_by_display_name@ == c_bytes_of(Seq::empty())
        &&& self.rest_default()
    }

    /// The record is the error record for `msg` and `url`: a text that
    /// holds a NUL byte stands as the empty text.
    pub open spec fn is_error_for(&self, msg: Seq<char>, url: Seq<char>) -> bool {
        &&& self.item_id == u32::MAX
        &&& self.item_name@ == c_bytes_of(if c_ready(msg) { msg } else { Seq::empty() })
        &&& self.thumbnail@ == c_bytes_of(if c_ready(url) { url } else { Seq::empty() })
        &&& self.added_by@ == c_bytes_of(error_marker())
        &&& self.added_by_display_name@ == c_bytes_of(error_marker())
        &&& self.rest_default()
    }
}

/// Every text of `d` can become a C string.
pub open spec fn list_info_c_ready(d: RobotListInfo) -> bool {
    &&& c_ready(d.item_name@)
    &&& c_ready(d.item_description@)
    &&& c_ready(d.thumbnail@)
    &&& c_ready(d.added_by@)
    &&& c_ready(d.added_by_display_name@)
    &&& c_ready(d.added_date@)
    &&& c_ready(d.expiry_date@)
    &&& c_ready(opt_text(d.removed_date))
    &&& c_ready(opt_text(d.ban_date))
    &&& c_ready(opt_text(d.banner_message))
    &&& c_ready(d.cube_amounts@)
}

/// Every text of `d` can become a C string.
pub open spec fn get_info_c_ready(d: RobotGetInfo) -> bool {
    &&& list_info_c_ready(d.summary)
    &&& c_ready(d.cube_data@)
    &&& c_ready(d.colour_data@)
}

fn text_field(s: &String) -> (r: Result<CText, TextError>)
    ensures
        r is Ok <==> c_ready(s@),
        r matches Ok(c) ==> c.wf() && c@ == c_bytes_of(s@),
{
    allocate_cstring(s.as_str())
}

fn optional_text_field(o: &Option<String>) -> (r: Result<CText, TextError>)
    ensures
        r is Ok <==> c_ready(opt_text(*o)),
        r matches Ok(c) ==> c.wf() && c@ == c_bytes_of(opt_text(*o)),
{
    match o {
        Some(s) => text_field(s),
        None => {
            proof {
                assert(encode_utf8(Seq::<char>::empty()) =~= Seq::<u8>::empty());
            }
            Ok(CText::empty())
        },
    }
}

/// The C string of `s`, or of the empty text where `s` holds a NUL byte.
fn text_or_empty(s: &str) -> (r: CText)
    ensures
        r.wf(),
        r@ == c_bytes_of(if c_ready(s@) { s@ } else { Seq::empty() }),
{
    match allocate_cstring(s) {
        Ok(c) => c,
        Err(_) => CText::empty(),
    }
}

/// The C string "ERROR".
fn error_marker_text() -> (r: CText)
    ensures
        r.wf(),
        r@ == c_bytes_of(error_marker()),
{
    proof {
        reveal_strlit("ERROR");
        assert("ERROR"@ =~= error_marker());
        is_ascii_chars_encode_utf8(error_marker());
        assert(c_ready(error_marker()));
    }
    match allocate_cstring("ERROR") {
        Ok(c) => c,
        Err(_) => CText::empty(),
    }
}

impl FactoryRobotListInfoC {
    /// The record built from `d`, or `InteriorNul` where one of its texts
    /// holds a NUL byte.
    pub fn from_info(d: &RobotListInfo) -> (r: Result<FactoryRobotListInfoC, TextError>)
        ensures
            r is Ok <==> list_info_c_ready(*d),
            r matches Ok(c) ==> c.wf() && c.holds(*d),
    {
        let item_name = text_field(&d.item_name)?;
        let item_description = text_field(&d.item_description)?;
        let thumbnail = text_field(&d.thumbnail)?;
        let added_by = text_field(&d.added_by)?;
        let added_by_display_name = text_field(&d.added_by_display_name)?;
        let added_date = text_field(&d.added_date)?;
        let expiry_date = text_field(&d.expiry_date)?;
        let removed_date = optional_text_field(&d.removed_date)?;
        let ban_date = optional_text_field(&d.ban_date)?;
        let banner_message = optional_text_field(&d.banner_message)?;
        let cube_amounts = text_field(&d.cube_amounts)?;
        Ok(FactoryRobotListInfoC {
            item_id: d.item_id as u32,
            item_name,
            item_description,
            thumbnail,
            added_by,
            added_by_display_name,
            added_date,
            expiry_date,
            cpu: d.cpu as u32,
            total_robot_ranking: d.total_robot_ranking as u32,
            rent_count: d.rent_count as u32,
            buy_count: d.buy_count as u32,
            buyable: d.buyable,
            removed_date,
            ban_date,
            featured: d.featured,
            banner_message,
            combat_rating_bits: d.combat_rating_bits,
            cosmetic_rating_bits: d.cosmetic_rating_bits,
            cube_amounts,
        })
    }

    /// The error record: the defaults, with `msg` as the name, `url` as the
    /// thumbnail, "ERROR" as both author fields and the largest id. A text
    /// that holds a NUL byte is left empty.
    pub fn mock_error(msg: &str, url: &str) -> (r: FactoryRobotListInfoC)
        ensures
            r.wf(),
            r.is_error_for(msg@, url@),
    {
        let mut err = FactoryRobotListInfoC::default();
        err.item_name = text_or_empty(msg);
        err.thumbnail = text_or_empty(url);
        err.added_by_display_name = error_marker_text();
        err.added_by = error_marker_text();
        err.item_id = u32::MAX;
        err
    }
}

impl Default for FactoryRobotListInfoC {
    /// Zero numbers, false flags and empty texts.
    fn default() -> (r: FactoryRobotListInfoC)
        ensures
            r.wf(),
            r.item_id == 0,
            r.holds_defaults(),
    {
        FactoryRobotListInfoC {
            item_id: 0,
            item_name: CText::empty(),
            item_description: CText::empty(),
            thumbnail: CText::empty(),
            added_by: CText::empty(),
            added_by_display_name: CText::empty(),
            added_date: CText::empty(),
            expiry_date: CText::empty(),
            cpu: 0,
            total_robot_ranking: 0,
            rent_count: 0,
            buy_count: 0,
            buyable: false,
            removed_date: CText::empty(),
            ban_date: CText::empty(),
            featured: false,
            banner_message: CText::empty(),
            combat_rating_bits: 0,
            cosmetic_rating_bits: 0,
            cube_amounts: CText::empty(),
        }
    }
}

impl FactoryRobotGetInfoC {
    /// Every text field is a well-formed C string.
    pub open spec fn wf(&self) -> bool {
        &&& self.summary.wf()
        &&& self.cube_data.wf()
        &&& self.colour_data.wf()
    }

    /// The record holds the values of `d`.
    pub open spec fn holds(&self, d: RobotGetInfo) -> bool {
        &&& self.summary.holds(d.summary)
        &&& self.cube_data@ == c_bytes_of(d.cube_data@)
        &&& self.colour_data@ == c_bytes_of(d.colour_data@)
    }

    /// The record is the error record for `msg` and `url`.
    pub open spec fn is_error_for(&self, msg: Seq<char>, url: Seq<char>) -> bool {
        &&& self.summary.is_error_for(msg, url)
        &&& self.cube_data@ == c_bytes_of(Seq::empty())
        &&& self.colour_data@ == c_bytes_of(Seq::empty())
    }

    /// The record built from `d`, or `InteriorNul` where one of its texts
    /// holds a NUL byte.
    pub fn from_info(d: &RobotGetInfo) -> (r: Result<FactoryRobotGetInfoC, TextError>)
        ensures
            r is Ok <==> get_info_c_ready(*d),
            r matches Ok(c) ==> c.wf() && c.holds(*d),
    {
        let summary = FactoryRobotListInfoC::from_info(&d.summary)?;
        let cube_data = text_field(&d.cube_data)?;
        let colour_data = text_field(&d.colour_data)?;
        Ok(FactoryRobotGetInfoC { summary, cube_data, colour_data })
    }

    /// The error record, as for a listed robot, with empty geometry.
    pub fn mock_error(msg: &str, url: &str) -> (r: FactoryRobotGetInfoC)
        ensures
            r.wf(),
            r.is_error_for(msg@, url@),
    {
        let mut err = FactoryRobotGetInfoC::default();
        err.summary = FactoryRobotListInfoC::mock_error(msg, url);
        err
    }
}

impl Default for FactoryRobotGetInfoC {
    /// Zero numbers, false flags and empty texts.
    fn default() -> (r: FactoryRobotGetInfoC)
        ensures
            r.wf(),
            r.summary.item_id == 0,
            r.summary.holds_defaults(),
            r.cube_data@ == c_bytes_of(Seq::empty()),
            r.colour_data@ == c_bytes_of(Seq::empty()),
    {
        FactoryRobotGetInfoC {
            summary: FactoryRobotListInfoC::default(),
            cube_data: CText::empty(),
            colour_data: CText::empty(),
        }
    }
}

/// A listed robot made flat reads back, field by field, as the robot: each
/// text as the same characters (an absent one as the empty text), each flag
/// and rating as it was, each count that fits in 32 bits as the same number.
pub proof fn lemma_list_round_trip(d: RobotListInfo, c: FactoryRobotListInfoC)
    requires
        c.holds(d),
    ensures
        text_of(c.item_name@) == d.item_name@,
        text_of(c.item_description@) == d.item_description@,
        text_of(c.thumbnail@) == d.thumbnail@,
        text_of(c.added_by@) == d.added_by@,
        text_of(c.added_by_display_name@) == d.added_by_display_name@,
        text_of(c.added_date@) == d.added_date@,
        text_of(c.expiry_date@) == d.expiry_date@,
        text_of(c.removed_date@) == opt_text(d.removed_date),
        text_of(c.ban_date@) == opt_text(d.ban_date),
        text_of(c.banner_message@) == opt_text(d.banner_message),
        text_of(c.cube_amounts@) == d.cube_amounts@,
        c.buyable == d.buyable,
        c.featured == d.featured,
        c.combat_rating_bits == d.combat_rating_bits,
        c.cosmetic_rating_bits == d.cosmetic_rating_bits,
        d.item_id <= u32::MAX ==> c.item_id as usize == d.item_id,
        d.cpu <= u32::MAX ==> c.cpu as usize == d.cpu,
        d.total_robot_ranking <= u32::MAX ==> c.total_robot_ranking as usize == d.total_robot_ranking,
        d.rent_count <= u32::MAX ==> c.rent_count as usize == d.rent_count,
        d.buy_count <= u32::MAX ==> c.buy_count as usize == d.buy_count,
{
    lemma_cstring_round_trip(d.item_name@);
    lemma_cstring_round_trip(d.item_description@);
    lemma_cstring_round_trip(d.thumbnail@);
    lemma_cstring_round_trip(d.added_by@);
    lemma_cstring_round_trip(d.added_by_display_name@);
    lemma_cstring_round_trip(d.added_date@);
    lemma_cstring_round_trip(d.expiry_date@);
    lemma_cstring_round_trip(opt_text(d.removed_date));
    lemma_cstring_round_trip(opt_text(d.ban_date));
    lemma_cstring_round_trip(opt_text(d.banner_message));
    lemma_cstring_round_trip(d.cube_amounts@);
}

} // verus!
