//! The time zone of a request: the `X-Timezone` header, else the
//! `QuestLog-TZ` cookie that the page sets from the browser's zone.

use crate::dates::{chrono_tz_parse, known_time_zone, opt_str_view};
use crate::session::{cookie_value, find_cookie_value};
use vstd::prelude::*;

verus! {

/// The time zone that a request names: a non-empty `X-Timezone` header
/// first, else a non-empty `QuestLog-TZ` cookie, else none.
pub open spec fn request_time_zone(header: Option<Seq<char>>, cookie: Option<Seq<char>>) -> Option<
    Seq<char>,
> {
    if header matches Some(h) && h.len() > 0 {
        header
    } else {
        match cookie {
            Some(c) => match cookie_value(c, "QuestLog-TZ="@) {
                Some(v) => if v.len() > 0 {
                    Some(v)
                } else {
                    None
                },
                None => None,
            },
            None => None,
        }
    }
}

/// Timezone extracted from request headers or cookies: an IANA name such as
/// `America/New_York`, or none.
#[derive(Debug, Clone)]
pub struct Timezone(pub Option<String>);

impl Timezone {
    /// The name of the zone, if any.
    pub open spec fn name(&self) -> Option<Seq<char>> {
        crate::editor::opt_text(self.0)
    }

    /// The time zone of a request, from its `X-Timezone` header and its
    /// `Cookie` header.
    pub fn from_headers(header: Option<&str>, cookie: Option<&str>) -> (tz: Self)
        ensures
            tz.name() == request_time_zone(opt_str_view(header), opt_str_view(cookie)),
    {
        if let Some(h) = header {
            if !h.is_empty() {
                return Timezone(Some(h.to_owned()));
            }
        }
        if let Some(c) = cookie {
            if let Some(v) = find_cookie_value(c, "QuestLog-TZ=") {
                if !v.as_str().is_empty() {
                    return Timezone(Some(v));
                }
            }
        }
        Timezone(None)
    }

    /// A time zone named as given (the `FromStr` of the application).
    pub fn from_name(name: &str) -> (tz: Self)
        ensures
            tz.name() == Some(name@),
    {
        Timezone(Some(name.to_owned()))
    }

    /// Get the timezone string if present.
    pub fn as_deref(&self) -> (r: Option<&str>)
        ensures
            opt_str_view(r) == self.name(),
    {
        match &self.0 {
            Some(s) => Some(s.as_str()),
            None => None,
        }
    }

    /// Whether the zone is one of the time zone database, or there is none
    /// (which falls back to UTC).
    pub fn is_valid(&self) -> (b: bool)
        ensures
            b == (self.name() matches Some(n) ==> known_time_zone(n)),
    {
        match &self.0 {
            Some(s) => chrono_tz_parse(s.as_str()).is_some(),
            None => true,
        }
    }

    /// The zone of the time zone database, where the name is one.
    pub fn to_chrono_tz(&self) -> (r: Option<chrono_tz::Tz>)
        ensures
            r is Some <==> (self.name() matches Some(n) && known_time_zone(n)),
    {
        match &self.0 {
            Some(s) => chrono_tz_parse(s.as_str()),
            None => None,
        }
    }
}

} // verus!
