use std::collections::HashMap;

use vstd::prelude::*;
use vstd::std_specs::hash::*;
use vstd::std_specs::iter::IteratorSpec;

use crate::datatypes::recipe::{Recipe, StepTimeTotals};
use crate::datatypes::step::StepType;
use crate::rational::Rational;
use crate::text::{join_str, decimal, seq_lt, str_eq, str_less, usize_to_string, views};

verus! {

broadcast use group_hash_axioms;

/// The name/value pairs that `form_urlencoded::parse` decodes from a body
/// in `application/x-www-form-urlencoded` form.
pub uninterp spec fn urlencoded_pairs(body: Seq<u8>) -> Seq<(Seq<char>, Seq<char>)>;

/// The views of a list of name/value pairs.
pub open spec fn pair_views(s: Seq<(String, String)>) -> Seq<(Seq<char>, Seq<char>)> {
    s.map_values(|p: (String, String)| (p.0@, p.1@))
}

/// Decodes `body` with `form_urlencoded::parse(body).into_owned()`: the
/// result is what that function yields, in order (named, not described).
#[verifier::external_body]
fn decode_urlencoded(body: &[u8]) -> (r: Vec<(String, String)>)
    ensures
        pair_views(r@) == urlencoded_pairs(body@),
{
    form_urlencoded::parse(body).into_owned().collect()
}

/// Decides with `std::str::from_utf8` whether the bytes are valid UTF-8,
/// which that function documents as the condition for `Ok`; validity is
/// `vstd`'s `valid_utf8`.
#[verifier::external_body]
fn is_utf8(bytes: &[u8]) -> (b: bool)
    ensures
        b == vstd::utf8::valid_utf8(bytes@),
{
    std::str::from_utf8(bytes).is_ok()
}

/// Why form data could not be read from a request, or a form could not be
/// applied to a recipe.
#[derive(Clone, Copy, Debug, PartialEq, Eq, Structural)]
pub enum FormError {
    /// the request carries `multipart/form-data`, which is not supported
    MultipartUnsupported,
    /// the request carries no form data
    NoFormData,
    /// the body of the request is not valid UTF-8 text
    InvalidUtf8,
    /// a field that the form must have is missing
    MissingField,
    /// the amount made is not a decimal number that fits in `u64`
    BadNumber,
}

/// Decoded form data: name/value pairs in the order they were sent. A name
/// sent more than once stands for its last value.
#[derive(Debug)]
pub struct FormData {
    /// the pairs, in order
    pub pairs: Vec<(String, String)>,
}

/// The value of the last pair named `name`, if any.
pub open spec fn form_lookup(pairs: Seq<(Seq<char>, Seq<char>)>, name: Seq<char>) -> Option<Seq<char>>
    decreases pairs.len(),
{
    if pairs.len() == 0 {
        None
    } else if pairs.last().0 == name {
        Some(pairs.last().1)
    } else {
        form_lookup(pairs.drop_last(), name)
    }
}

/// The number that `uuid::Uuid::parse_str` reads from `text`, as
/// `Uuid::as_u128` gives it, or `None` where it refuses the text.
pub uninterp spec fn uuid_value(text: Seq<char>) -> Option<u128>;

/// Reads a UUID with `uuid::Uuid::parse_str`, which accepts the simple,
/// hyphenated, braced and URN forms; the result is named, not described.
#[verifier::external_body]
fn parse_uuid(text: &str) -> (r: Option<u128>)
    ensures
        r == uuid_value(text@),
{
    uuid::Uuid::parse_str(text).ok().map(|u| u.as_u128())
}

impl FormData {
    /// The pairs of the form.
    pub open spec fn view(self) -> Seq<(Seq<char>, Seq<char>)> {
        pair_views(self.pairs@)
    }

    /// `get` returns the value sent for `name`: the last one when it was
    /// sent more than once.
    pub fn get(&self, name: &str) -> (r: Option<&String>)
        ensures
            match r {
                Some(v) => form_lookup(self.view(), name@) == Some(v@),
                None => form_lookup(self.view(), name@) is None,
            },
    {
        let mut i = self.pairs.len();
        assert(self.view().take(i as int) =~= self.view());
        while i > 0
            invariant
                i <= self.pairs.len(),
                form_lookup(self.view(), name@) == form_lookup(self.view().take(i as int), name@),
            decreases i,
        {
            assert(self.view().take(i as int).drop_last() =~= self.view().take(i as int - 1));
            assert(self.view()[i - 1] == (self.pairs@[i - 1].0@, self.pairs@[i - 1].1@));
            if str_eq(self.pairs[i - 1].0.as_str(), name) {
                return Some(&self.pairs[i - 1].1);
            }
            i -= 1;
        }
        None
    }

    /// `get_uuid` reads the value sent for `name` as a UUID: `None` when no
    /// value was sent for it or the value is no UUID.
    pub fn get_uuid(&self, name: &str) -> (r: Option<u128>)
        ensures
            r == match form_lookup(self.view(), name@) {
                Some(v) => uuid_value(v),
                None => None,
            },
    {
        match self.get(name) {
            Some(v) => parse_uuid(v.as_str()),
            None => None,
        }
    }

    /// `contains_key` decides whether a value was sent for `name`.
    pub fn contains_key(&self, name: &str) -> (b: bool)
        ensures
            b == form_lookup(self.view(), name@) is Some,
    {
        self.get(name).is_some()
    }
}

/// `parse_post_form_data` reads the form data of a POST request from its
/// content type and body: an `application/x-www-form-urlencoded` body is
/// decoded when it is UTF-8 text and refused otherwise,
/// `multipart/form-data` is refused as unsupported, and anything else
/// carries no form data.
pub fn parse_post_form_data(content_type: Option<&str>, body: &[u8]) -> (r: Result<FormData, FormError>)
    ensures
        match content_type {
            Some(ct) => if ct@ == "application/x-www-form-urlencoded"@ {
                if vstd::utf8::valid_utf8(body@) {
                    r matches Ok(f) && f.view() == urlencoded_pairs(body@)
                } else {
                    r == Err::<FormData, FormError>(FormError::InvalidUtf8)
                }
            } else if ct@ == "multipart/form-data"@ {
                r == Err::<FormData, FormError>(FormError::MultipartUnsupported)
            } else {
                r == Err::<FormData, FormError>(FormError::NoFormData)
            },
            None => r == Err::<FormData, FormError>(FormError::NoFormData),
        },
{
    match content_type {
        Some(ct) => {
            if str_eq(ct, "application/x-www-form-urlencoded") {
                if is_utf8(body) {
                    Ok(FormData { pairs: decode_urlencoded(body) })
                } else {
                    Err(FormError::InvalidUtf8)
                }
            } else if str_eq(ct, "multipart/form-data") {
                Err(FormError::MultipartUnsupported)
            } else {
                Err(FormError::NoFormData)
            }
        },
        None => Err(FormError::NoFormData),
    }
}

/// The value of a decimal digit character.
pub open spec fn digit_value(c: char) -> int {
    (c as int) - ('0' as int)
}

/// A decimal digit character.
pub open spec fn is_digit(c: char) -> bool {
    '0' as int <= c as int <= '9' as int
}

/// The number written by the digits `s`.
pub open spec fn digits_value(s: Seq<char>) -> int
    decreases s.len(),
{
    if s.len() == 0 {
        0
    } else {
        digits_value(s.drop_last()) * 10 + digit_value(s.last())
    }
}

/// The digits of a number as `u64::from_str` reads it: after an optional
/// `+`, at least one digit and nothing else.
pub open spec fn number_digits(s: Seq<char>) -> Seq<char> {
    if s.len() > 0 && s[0] == '+' {
        s.drop_first()
    } else {
        s
    }
}

/// `s` is the decimal notation of a number that fits in `u64`, as
/// `u64::from_str` accepts it.
pub open spec fn is_u64_text(s: Seq<char>) -> bool {
    let d = number_digits(s);
    &&& d.len() > 0
    &&& forall|i: int| 0 <= i < d.len() ==> is_digit(#[trigger] d[i])
    &&& digits_value(d) <= u64::MAX
}

/// Decides whether a character is one of `'0'..='9'`.
fn char_is_ascii_digit(c: char) -> (b: bool)
    ensures
        b == is_digit(c),
{
    '0' <= c && c <= '9'
}

/// The value of a digit character.
fn char_digit_value(c: char) -> (d: u64)
    requires
        is_digit(c),
    ensures
        d as int == digit_value(c),
{
    ((c as u32) - ('0' as u32)) as u64
}

proof fn lemma_digits_value_nonneg(s: Seq<char>)
    requires
        forall|i: int| 0 <= i < s.len() ==> is_digit(#[trigger] s[i]),
    ensures
        digits_value(s) >= 0,
    decreases s.len(),
{
    if s.len() > 0 {
        lemma_digits_value_nonneg(s.drop_last());
    }
}

proof fn lemma_digits_value_monotone(s: Seq<char>, i: int)
    requires
        0 <= i <= s.len(),
        forall|j: int| 0 <= j < s.len() ==> is_digit(#[trigger] s[j]),
    ensures
        digits_value(s.take(i)) <= digits_value(s),
    decreases s.len() - i,
{
    if i < s.len() {
        lemma_digits_value_monotone(s, i + 1);
        assert(s.take(i + 1).drop_last() =~= s.take(i));
        let t = s.take(i);
        assert forall|j: int| 0 <= j < t.len() implies is_digit(#[trigger] t[j]) by {
            assert(t[j] == s[j]);
        }
        lemma_digits_value_nonneg(t);
    } else {
        assert(s.take(i) =~= s);
    }
}

/// `parse_u64` reads a decimal number as `u64::from_str` does: an
/// optional `+`, then at least one digit and nothing else, the value
/// fitting in `u64`. It returns `None` for any other text.
pub fn parse_u64(s: &str) -> (r: Option<u64>)
    ensures
        r is Some <==> is_u64_text(s@),
        r matches Some(n) ==> n as int == digits_value(number_digits(s@)),
{
    let chars = crate::text::chars_of(s);
    let start: usize = if chars.len() > 0 && chars[0] == '+' {
        1
    } else {
        0
    };
    let ghost d = number_digits(s@);
    assert(d =~= chars@.skip(start as int));
    if start >= chars.len() {
        assert(d.len() == 0);
        return None;
    }
    let mut value: u64 = 0;
    let mut i: usize = start;
    while i < chars.len()
        invariant
            start <= i <= chars.len(),
            chars@ == s@,
            d == chars@.skip(start as int),
            d == number_digits(s@),
            forall|j: int| 0 <= j < i - start ==> is_digit(#[trigger] d[j]),
            value as int == digits_value(d.take(i - start)),
        decreases chars.len() - i,
    {
        let c = chars[i];
        assert(d[i - start] == c);
        if !char_is_ascii_digit(c) {
            assert(!is_digit(d[i - start]));
            return None;
        }
        let v = char_digit_value(c);
        assert(d.take(i - start + 1).drop_last() =~= d.take(i - start));
        if value > (u64::MAX - v) / 10 {
            proof {
                assert(value * 10 + v > u64::MAX) by (nonlinear_arith)
                    requires
                        value > (u64::MAX - v) / 10,
                        v <= 9,
                ;
                let k = i - start + 1;
                if is_u64_text(s@) {
                    lemma_digits_value_monotone(d, k);
                    assert(digits_value(d.take(k)) == value * 10 + v);
                }
            }
            return None;
        }
        value = value * 10 + v;
        i += 1;
    }
    assert(d.take(i - start) =~= d);
    Some(value)
}

proof fn lemma_decimal_digits(n: nat)
    ensures
        decimal(n).len() > 0,
        forall|i: int| 0 <= i < decimal(n).len() ==> is_digit(#[trigger] decimal(n)[i]),
        digits_value(decimal(n)) == n,
    decreases n,
{
    if n >= 10 {
        lemma_decimal_digits(n / 10);
        let d = decimal(n);
        assert(d.drop_last() =~= decimal(n / 10));
        assert(digit_value(d.last()) == n % 10);
        assert(n == (n / 10) * 10 + n % 10);
        assert forall|i: int| 0 <= i < d.len() implies is_digit(#[trigger] d[i]) by {
            if i < d.len() - 1 {
                assert(d[i] == decimal(n / 10)[i]);
            }
        }
    } else {
        assert(decimal(n).drop_last() =~= Seq::<char>::empty());
        assert(digits_value(Seq::<char>::empty()) == 0);
    }
}

/// What `u64_to_string` writes, `parse_u64` reads back: a number sent out
/// in a page comes back unchanged from the form that holds it.
pub proof fn lemma_parse_u64_reads_decimal(n: u64)
    ensures
        is_u64_text(decimal(n as nat)),
        digits_value(number_digits(decimal(n as nat))) == n,
{
    lemma_decimal_digits(n as nat);
    assert(decimal(n as nat)[0] != '+');
    assert(number_digits(decimal(n as nat)) == decimal(n as nat));
}


/// `apply_recipe_form` updates the recipe from the fields of the recipe
/// editor form: name, description, comments, source, author, amount made
/// and its units. Every field must be present and the amount must be a
/// number; otherwise the recipe is left unchanged.
pub fn apply_recipe_form(recipe: &mut Recipe, form: &FormData) -> (r: Result<(), FormError>)
    ensures
        ({
            let f = form.view();
            let all_present = form_lookup(f, "name"@) is Some && form_lookup(f, "description"@) is Some
                && form_lookup(f, "comments"@) is Some && form_lookup(f, "source"@) is Some
                && form_lookup(f, "author"@) is Some && form_lookup(f, "amount_made"@) is Some
                && form_lookup(f, "amount_made_units"@) is Some;
            &&& !all_present ==> r == Err::<(), FormError>(FormError::MissingField) && *final(recipe) == *old(recipe)
            &&& all_present && !is_u64_text(form_lookup(f, "amount_made"@).unwrap()) ==> r == Err::<(), FormError>(
                FormError::BadNumber,
            ) && *final(recipe) == *old(recipe)
            &&& r is Ok ==> {
                &&& all_present
                &&& final(recipe).name@ == form_lookup(f, "name"@).unwrap()
                &&& final(recipe).description.deep_view() == Some(form_lookup(f, "description"@).unwrap())
                &&& final(recipe).comments.deep_view() == Some(form_lookup(f, "comments"@).unwrap())
                &&& final(recipe).source@ == form_lookup(f, "source"@).unwrap()
                &&& final(recipe).author@ == form_lookup(f, "author"@).unwrap()
                &&& final(recipe).amount_made.quantity as int == digits_value(
                    number_digits(form_lookup(f, "amount_made"@).unwrap()),
                )
                &&& final(recipe).amount_made.units@ == form_lookup(f, "amount_made_units"@).unwrap()
                &&& final(recipe).id == old(recipe).id
                &&& final(recipe).steps == old(recipe).steps
                &&& final(recipe).tags == old(recipe).tags
                &&& final(recipe).saved == old(recipe).saved
            }
            &&& all_present && is_u64_text(form_lookup(f, "amount_made"@).unwrap()) ==> r is Ok
        }),
{
    let name = match form.get("name") {
        Some(v) => v,
        None => return Err(FormError::MissingField),
    };
    let description = match form.get("description") {
        Some(v) => v,
        None => return Err(FormError::MissingField),
    };
    let comments = match form.get("comments") {
        Some(v) => v,
        None => return Err(FormError::MissingField),
    };
    let source = match form.get("source") {
        Some(v) => v,
        None => return Err(FormError::MissingField),
    };
    let author = match form.get("author") {
        Some(v) => v,
        None => return Err(FormError::MissingField),
    };
    let amount_made = match form.get("amount_made") {
        Some(v) => v,
        None => return Err(FormError::MissingField),
    };
    let amount_made_units = match form.get("amount_made_units") {
        Some(v) => v,
        None => return Err(FormError::MissingField),
    };
    let quantity = match parse_u64(amount_made.as_str()) {
        Some(n) => n,
        None => return Err(FormError::BadNumber),
    };
    recipe.name = name.clone();
    recipe.description = Some(description.clone());
    recipe.comments = Some(comments.clone());
    recipe.source = source.clone();
    recipe.author = author.clone();
    recipe.amount_made.quantity = quantity;
    recipe.amount_made.units = amount_made_units.clone();
    Ok(())
}

/// The HTTP methods the web interface tells apart.
#[derive(Clone, Copy, Debug, PartialEq, Eq, Structural)]
pub enum HttpMethod {
    /// GET
    Get,
    /// POST
    Post,
    /// any other method
    Other,
}

/// What the web interface does with a request.
#[derive(Clone, Copy, Debug, PartialEq, Eq, Structural)]
pub enum Route {
    /// the root page
    Root,
    /// the favicon
    Favicon,
    /// a page that only answers POST was asked for with GET
    PostOnly,
    /// the ingredient database page
    Database,
    /// the recipe browser
    Browse,
    /// view a recipe
    ViewRecipe,
    /// edit a recipe
    EditRecipe,
    /// create a recipe
    NewRecipe,
    /// filter recipes by tags
    FilterTags,
    /// reset the tag filter
    ResetTags,
    /// save an edit and go on editing
    SaveRecipeEdit,
    /// save an edit and stop editing
    SaveRecipe,
    /// save a new recipe
    SaveNewRecipe,
    /// add a step to the recipe being edited
    InsertStep,
    /// edit a step
    EditStep,
    /// no page of that path for GET
    NotFound,
    /// no page of that path for POST
    BadRequest,
    /// a method that no page answers
    MethodNotAllowed,
}

/// The route of a request.
pub open spec fn route_of(method: HttpMethod, path: Seq<char>) -> Route {
    match method {
        HttpMethod::Get => if path == "/"@ {
            Route::Root
        } else if path == "/favicon.ico"@ {
            Route::Favicon
        } else if path == "/database"@ || path == "/browse"@ {
            Route::PostOnly
        } else {
            Route::NotFound
        },
        HttpMethod::Post => if path == "/database"@ {
            Route::Database
        } else if path == "/browse"@ {
            Route::Browse
        } else if path == "/view-recipe"@ {
            Route::ViewRecipe
        } else if path == "/edit-recipe"@ {
            Route::EditRecipe
        } else if path == "/new-recipe"@ {
            Route::NewRecipe
        } else if path == "/filter-tags"@ {
            Route::FilterTags
        } else if path == "/reset-tags"@ {
            Route::ResetTags
        } else if path == "/save-recipe-edit"@ {
            Route::SaveRecipeEdit
        } else if path == "/save-recipe"@ {
            Route::SaveRecipe
        } else if path == "/save-new-recipe"@ {
            Route::SaveNewRecipe
        } else if path == "/insert-step"@ {
            Route::InsertStep
        } else if path == "/edit-step"@ {
            Route::EditStep
        } else {
            Route::BadRequest
        },
        HttpMethod::Other => Route::MethodNotAllowed,
    }
}

/// The path at which each page that answers POST is served.
pub open spec fn page_path(r: Route) -> Option<Seq<char>> {
    match r {
        Route::Database => Some("/database"@),
        Route::Browse => Some("/browse"@),
        Route::ViewRecipe => Some("/view-recipe"@),
        Route::EditRecipe => Some("/edit-recipe"@),
        Route::NewRecipe => Some("/new-recipe"@),
        Route::FilterTags => Some("/filter-tags"@),
        Route::ResetTags => Some("/reset-tags"@),
        Route::SaveRecipeEdit => Some("/save-recipe-edit"@),
        Route::SaveRecipe => Some("/save-recipe"@),
        Route::SaveNewRecipe => Some("/save-new-recipe"@),
        Route::InsertStep => Some("/insert-step"@),
        Route::EditStep => Some("/edit-step"@),
        _ => None,
    }
}

/// Each page that answers POST is reached by a POST of its own path, and by
/// no other: a POST is routed to a page exactly when its path is that
/// page's path, so no two paths lead to one page.
pub proof fn lemma_post_paths_reach_their_pages(r: Route, path: Seq<char>)
    requires
        page_path(r) is Some,
    ensures
        route_of(HttpMethod::Post, path) == r <==> path == page_path(r).unwrap(),
{
    reveal_strlit("/database");
    reveal_strlit("/browse");
    reveal_strlit("/view-recipe");
    reveal_strlit("/edit-recipe");
    reveal_strlit("/new-recipe");
    reveal_strlit("/filter-tags");
    reveal_strlit("/reset-tags");
    reveal_strlit("/save-recipe-edit");
    reveal_strlit("/save-recipe");
    reveal_strlit("/save-new-recipe");
    reveal_strlit("/insert-step");
    reveal_strlit("/edit-step");
    assert("/database"@.len() == 9 && "/browse"@.len() == 7 && "/view-recipe"@.len() == 12 && "/edit-recipe"@.len() == 12 && "/new-recipe"@.len() == 11 && "/filter-tags"@.len() == 12 && "/reset-tags"@.len() == 11 && "/save-recipe-edit"@.len() == 17 && "/save-recipe"@.len() == 12 && "/save-new-recipe"@.len() == 16 && "/insert-step"@.len() == 12 && "/edit-step"@.len() == 10);
    assert("/view-recipe"@[1] == 'v' && "/edit-recipe"@[1] == 'e' && "/filter-tags"@[1] == 'f');
    assert("/save-recipe"@[1] == 's' && "/insert-step"@[1] == 'i');
    assert("/new-recipe"@[1] == 'n' && "/reset-tags"@[1] == 'r');
    match r {
        Route::Database => assert(route_of(HttpMethod::Post, "/database"@) == Route::Database),
        Route::Browse => assert(route_of(HttpMethod::Post, "/browse"@) == Route::Browse),
        Route::ViewRecipe => assert(route_of(HttpMethod::Post, "/view-recipe"@) == Route::ViewRecipe),
        Route::EditRecipe => assert(route_of(HttpMethod::Post, "/edit-recipe"@) == Route::EditRecipe),
        Route::NewRecipe => assert(route_of(HttpMethod::Post, "/new-recipe"@) == Route::NewRecipe),
        Route::FilterTags => assert(route_of(HttpMethod::Post, "/filter-tags"@) == Route::FilterTags),
        Route::ResetTags => assert(route_of(HttpMethod::Post, "/reset-tags"@) == Route::ResetTags),
        Route::SaveRecipeEdit => assert(route_of(HttpMethod::Post, "/save-recipe-edit"@) == Route::SaveRecipeEdit),
        Route::SaveRecipe => assert(route_of(HttpMethod::Post, "/save-recipe"@) == Route::SaveRecipe),
        Route::SaveNewRecipe => assert(route_of(HttpMethod::Post, "/save-new-recipe"@) == Route::SaveNewRecipe),
        Route::InsertStep => assert(route_of(HttpMethod::Post, "/insert-step"@) == Route::InsertStep),
        Route::EditStep => assert(route_of(HttpMethod::Post, "/edit-step"@) == Route::EditStep),
        _ => {},
    }
}

/// A GET reaches the root page exactly at `/` and the icon exactly at
/// `/favicon.ico`; the pages that answer only POST are refused as such
/// exactly at their own paths.
pub proof fn lemma_get_paths_reach_their_pages(path: Seq<char>)
    ensures
        route_of(HttpMethod::Get, path) == Route::Root <==> path == "/"@,
        route_of(HttpMethod::Get, path) == Route::Favicon <==> path == "/favicon.ico"@,
        route_of(HttpMethod::Get, path) == Route::PostOnly <==> (path == page_path(Route::Database).unwrap()
            || path == page_path(Route::Browse).unwrap()),
{
    reveal_strlit("/");
    reveal_strlit("/favicon.ico");
    reveal_strlit("/database");
    reveal_strlit("/browse");
    assert("/"@.len() == 1 && "/favicon.ico"@.len() == 12 && "/database"@.len() == 9 && "/browse"@.len() == 7);
}

/// `route` decides what the web interface does with a request of method
/// `method` for `path`.
pub fn route(method: HttpMethod, path: &str) -> (r: Route)
    ensures
        r == route_of(method, path@),
{
    match method {
        HttpMethod::Get => {
            if str_eq(path, "/") {
                Route::Root
            } else if str_eq(path, "/favicon.ico") {
                Route::Favicon
            } else if str_eq(path, "/database") || str_eq(path, "/browse") {
                Route::PostOnly
            } else {
                Route::NotFound
            }
        },
        HttpMethod::Post => {
            if str_eq(path, "/database") {
                Route::Database
            } else if str_eq(path, "/browse") {
                Route::Browse
            } else if str_eq(path, "/view-recipe") {
                Route::ViewRecipe
            } else if str_eq(path, "/edit-recipe") {
                Route::EditRecipe
            } else if str_eq(path, "/new-recipe") {
                Route::NewRecipe
            } else if str_eq(path, "/filter-tags") {
                Route::FilterTags
            } else if str_eq(path, "/reset-tags") {
                Route::ResetTags
            } else if str_eq(path, "/save-recipe-edit") {
                Route::SaveRecipeEdit
            } else if str_eq(path, "/save-recipe") {
                Route::SaveRecipe
            } else if str_eq(path, "/save-new-recipe") {
                Route::SaveNewRecipe
            } else if str_eq(path, "/insert-step") {
                Route::InsertStep
            } else if str_eq(path, "/edit-step") {
                Route::EditStep
            } else {
                Route::BadRequest
            }
        },
        HttpMethod::Other => Route::MethodNotAllowed,
    }
}

/// How many rows the tag list of the browser page shows: the number of
/// tags, but at least 2 and at most a page.
pub fn tag_list_size(tags_len: usize, page_len: usize) -> (n: usize)
    ensures
        n == (if tags_len > page_len {
            page_len
        } else if tags_len < 2 {
            2
        } else {
            tags_len
        }),
{
    if tags_len > page_len {
        page_len
    } else if tags_len < 2 {
        2
    } else {
        tags_len
    }
}

/// How many rows the recipe list of the browser page shows: the number of
/// recipes, but at least 2 and at most a page, as for the tag list.
pub fn recipe_list_size(recipes_len: usize, page_len: usize) -> (n: usize)
    ensures
        n == (if recipes_len > page_len {
            page_len
        } else if recipes_len < 2 {
            2
        } else {
            recipes_len
        }),
{
    if recipes_len > page_len {
        page_len
    } else if recipes_len < 2 {
        2
    } else {
        recipes_len
    }
}

/// An entry of the recipe list: ID and name.
pub open spec fn entry_view(e: (u128, String)) -> (u128, Seq<char>) {
    (e.0, e.1@)
}

/// A list of entries is ordered by name, from the first to the last.
pub open spec fn sorted_by_name(s: Seq<(u128, Seq<char>)>) -> bool {
    forall|i: int, j: int| 0 <= i < j < s.len() ==> !seq_lt(#[trigger] s[j].1, #[trigger] s[i].1)
}

/// The views of a list of entries.
pub open spec fn entry_views(s: Seq<(u128, String)>) -> Seq<(u128, Seq<char>)> {
    s.map_values(|e: (u128, String)| entry_view(e))
}

/// Inserts `e` into the list ordered by name, after the entries whose name
/// does not sort after its own, and returns where.
fn insert_by_name(v: &mut Vec<(u128, String)>, e: (u128, String)) -> (p: usize)
    requires
        sorted_by_name(entry_views(old(v)@)),
    ensures
        p <= old(v)@.len(),
        final(v)@ == old(v)@.insert(p as int, e),
        sorted_by_name(entry_views(final(v)@)),
{
    let mut p: usize = 0;
    loop
        invariant
            p <= v.len(),
            v@ == old(v)@,
            forall|i: int| 0 <= i < p ==> !seq_lt(e.1@, #[trigger] v@[i].1@),
        ensures
            p <= v.len(),
            v@ == old(v)@,
            forall|i: int| 0 <= i < p ==> !seq_lt(e.1@, #[trigger] v@[i].1@),
            p < v.len() ==> seq_lt(e.1@, v@[p as int].1@),
        decreases v.len() - p,
    {
        if p >= v.len() {
            break;
        }
        if str_less(e.1.as_str(), v[p].1.as_str()) {
            break;
        }
        p += 1;
    }
    let ghost old_v = entry_views(v@);
    let ghost ev = entry_view(e);
    proof {
        assert forall|j: int| p <= j < old_v.len() implies !seq_lt(#[trigger] old_v[j].1, ev.1) by {
            if seq_lt(old_v[j].1, ev.1) {
                crate::text::lemma_seq_lt_transitive(old_v[j].1, ev.1, old_v[p as int].1);
                if j == p {
                    crate::text::lemma_seq_lt_irreflexive(old_v[j].1);
                }
            }
        }
    }
    v.insert(p, e);
    proof {
        let nv = entry_views(v@);
        assert(nv =~= old_v.insert(p as int, ev));
        assert forall|i: int, j: int| 0 <= i < j < nv.len() implies !seq_lt(#[trigger] nv[j].1, #[trigger] nv[i].1) by {
            if i < p && j < p {
            } else if i < p && j == p {
                assert(nv[i] == old_v[i]);
            } else if i < p {
                assert(nv[i] == old_v[i] && nv[j] == old_v[j - 1]);
            } else if i == p {
                assert(nv[j] == old_v[j - 1]);
            } else {
                assert(nv[i] == old_v[i - 1] && nv[j] == old_v[j - 1]);
            }
        }
    }
    p
}

/// Inserting an entry whose ID no entry has keeps the IDs distinct.
proof fn lemma_entry_inserted(
    old_v: Seq<(u128, String)>,
    nv: Seq<(u128, String)>,
    p: int,
    id: u128,
)
    requires
        0 <= p <= old_v.len(),
        nv.len() == old_v.len() + 1,
        nv[p].0 == id,
        forall|i: int| 0 <= i < p ==> nv[i] == old_v[i],
        forall|i: int| p < i < nv.len() ==> nv[i] == old_v[i - 1],
        forall|i: int, j: int| 0 <= i < j < old_v.len() ==> #[trigger] old_v[i].0 != #[trigger] old_v[j].0,
        forall|i: int| 0 <= i < old_v.len() ==> old_v[i].0 != id,
    ensures
        forall|i: int, j: int| 0 <= i < j < nv.len() ==> #[trigger] nv[i].0 != #[trigger] nv[j].0,
{
    assert forall|i: int, j: int| 0 <= i < j < nv.len() implies #[trigger] nv[i].0 != #[trigger] nv[j].0 by {
        if i < p && j < p {
            assert(nv[i] == old_v[i] && nv[j] == old_v[j]);
        } else if i < p && j == p {
            assert(nv[i] == old_v[i]);
        } else if i < p {
            assert(nv[i] == old_v[i] && nv[j] == old_v[j - 1]);
        } else if i == p {
            assert(nv[j] == old_v[j - 1]);
        } else {
            assert(nv[i] == old_v[i - 1] && nv[j] == old_v[j - 1]);
        }
    }
}

/// The entries list the recipes of `m` that have an ID (a nonzero one),
/// each once, as ID and name, ordered by name.
pub open spec fn lists_recipes(e: Seq<(u128, Seq<char>)>, m: Map<u128, Recipe>) -> bool {
    &&& sorted_by_name(e)
    &&& forall|i: int| 0 <= i < e.len() ==> #[trigger] e[i].0 != 0 && m.contains_key(e[i].0) && m[e[i].0].name@ == e[i].1
    &&& forall|id: u128| id != 0 && #[trigger] m.contains_key(id) ==> exists|i: int| 0 <= i < e.len() && e[i].0 == id
    &&& forall|i: int, j: int| 0 <= i < j < e.len() ==> #[trigger] e[i].0 != #[trigger] e[j].0
}

/// The lower-case hexadecimal digit for `d < 16`.
pub open spec fn hex_digit(d: int) -> char {
    if d < 10 {
        (d + 48) as char
    } else {
        (d + 87) as char
    }
}

/// The `k`-th of the 32 hexadecimal digits of `n`, the most significant
/// first.
pub open spec fn nibble(n: u128, k: int) -> int {
    ((n as int) / vstd::arithmetic::power::pow(16, (31 - k) as nat)) % 16
}

/// The text of a UUID as `uuid::Uuid`'s `Display` writes it: its 32
/// lower-case hexadecimal digits, the most significant first, in groups of
/// 8, 4, 4, 4 and 12 joined by hyphens.
pub open spec fn uuid_text(id: u128) -> Seq<char> {
    Seq::new(
        36,
        |i: int|
            if i == 8 || i == 13 || i == 18 || i == 23 {
                '-'
            } else {
                hex_digit(
                    nibble(
                        id,
                        i - (if i > 23 {
                            4int
                        } else if i > 18 {
                            3int
                        } else if i > 13 {
                            2int
                        } else if i > 8 {
                            1int
                        } else {
                            0int
                        }),
                    ),
                )
            },
    )
}

/// Writes a UUID with `uuid::Uuid::from_u128(id).to_string()`, which holds
/// the 128 bits big-endian and writes them hyphenated in lower-case
/// hexadecimal (`uuid_text`).
#[verifier::external_body]
fn uuid_to_string(id: u128) -> (r: String)
    ensures
        r@ == uuid_text(id),
{
    uuid::Uuid::from_u128(id).to_string()
}

/// The options of the recipe list: for each listed recipe its ID as value
/// and its name as text.
pub open spec fn recipe_option_views(e: Seq<(u128, Seq<char>)>) -> Seq<(Seq<char>, Seq<char>)> {
    e.map_values(|x: (u128, Seq<char>)| (uuid_text(x.0), x.1))
}

/// The views of a list of options: value and text.
pub open spec fn option_views(s: Seq<(String, String)>) -> Seq<(Seq<char>, Seq<char>)> {
    s.map_values(|o: (String, String)| (o.0@, o.1@))
}

/// `recipe_options` is the option list of the recipe browser, as value and
/// text: when no recipe is loaded, the one option `-1`, "No Recipes
/// Loaded"; otherwise, ordered by name, one option for each recipe that has
/// an ID, its ID as value and its name as text.
pub fn recipe_options(recipes: &HashMap<u128, Recipe>) -> (r: Vec<(String, String)>)
    ensures
        recipes@.len() == 0 ==> option_views(r@) == seq![("-1"@, "No Recipes Loaded"@)],
        recipes@.len() > 0 ==> exists|e: Seq<(u128, Seq<char>)>| lists_recipes(e, recipes@)
            && option_views(r@) == recipe_option_views(e),
{
    let mut r: Vec<(String, String)> = Vec::new();
    if recipes.len() == 0 {
        r.push((String::from_str("-1"), String::from_str("No Recipes Loaded")));
        assert(option_views(r@) =~= seq![("-1"@, "No Recipes Loaded"@)]);
        return r;
    }
    let entries = browser_entries(recipes);
    let ghost e = entry_views(entries@);
    let mut i: usize = 0;
    while i < entries.len()
        invariant
            i <= entries.len(),
            e == entry_views(entries@),
            option_views(r@) == recipe_option_views(e.take(i as int)),
        decreases entries.len() - i,
    {
        let ghost old_r = r@;
        let value = uuid_to_string(entries[i].0);
        let text = entries[i].1.clone();
        assert(e[i as int] == (entries@[i as int].0, entries@[i as int].1@));
        r.push((value, text));
        assert(r@ == old_r.push((value, text)));
        assert(option_views(r@) =~= option_views(old_r).push((value@, text@)));
        assert(e.take(i as int + 1) =~= e.take(i as int).push(e[i as int]));
        assert(recipe_option_views(e.take(i as int + 1)) =~= recipe_option_views(e.take(i as int)).push(
            (uuid_text(e[i as int].0), e[i as int].1),
        ));
        i += 1;
    }
    assert(e.take(i as int) =~= e);
    assert forall|k: int| 0 <= k < e.len() implies #[trigger] e[k] == (entries@[k].0, entries@[k].1@) by {}
    assert forall|id: u128| id != 0 && #[trigger] recipes@.contains_key(id) implies exists|k: int|
        0 <= k < e.len() && e[k].0 == id by {
        let k = choose|k: int| 0 <= k < entries@.len() && entries@[k].0 == id;
        assert(e[k].0 == id);
    }
    assert forall|a: int, b: int| 0 <= a < b < e.len() implies #[trigger] e[a].0 != #[trigger] e[b].0 by {
        assert(entries@[a].0 != entries@[b].0);
    }
    assert forall|k: int| 0 <= k < e.len() implies #[trigger] e[k].0 != 0 && recipes@.contains_key(e[k].0)
        && recipes@[e[k].0].name@ == e[k].1 by {
        assert(entries@[k].0 != 0);
    }
    r
}

/// The options of the tag list: when no tag is loaded, the one option
/// `-1`, "No Tags Loaded"; otherwise each tag, its position as value.
pub open spec fn tag_option_views(tags: Seq<Seq<char>>) -> Seq<(Seq<char>, Seq<char>)> {
    if tags.len() == 0 {
        seq![("-1"@, "No Tags Loaded"@)]
    } else {
        Seq::new(tags.len(), |i: int| (decimal(i as nat), tags[i]))
    }
}

/// `tag_options` is the option list of the tags in the recipe browser, as
/// value and text: when no tag is loaded, the one option `-1`, "No Tags
/// Loaded"; otherwise each tag in order, its position as value.
pub fn tag_options(tags: &Vec<String>) -> (r: Vec<(String, String)>)
    ensures
        option_views(r@) == tag_option_views(views(tags@)),
{
    let mut r: Vec<(String, String)> = Vec::new();
    if tags.len() == 0 {
        r.push((String::from_str("-1"), String::from_str("No Tags Loaded")));
        assert(option_views(r@) =~= tag_option_views(views(tags@)));
        return r;
    }
    let mut i: usize = 0;
    while i < tags.len()
        invariant
            i <= tags.len(),
            tags@.len() > 0,
            option_views(r@) =~= tag_option_views(views(tags@)).take(i as int),
        decreases tags.len() - i,
    {
        let ghost old_r = r@;
        let value = usize_to_string(i);
        let text = tags[i].clone();
        r.push((value, text));
        assert(r@ == old_r.push((value, text)));
        assert(option_views(r@) =~= option_views(old_r).push((value@, text@)));
        assert(option_views(r@) =~= tag_option_views(views(tags@)).take(i as int + 1));
        i += 1;
    }
    assert(tag_option_views(views(tags@)).take(i as int) =~= tag_option_views(views(tags@)));
    r
}

/// `browser_entries` lists the recipes that have an ID (a nonzero one), as
/// ID and name, ordered by name.
#[verifier::rlimit(60)]
pub fn browser_entries(recipes: &HashMap<u128, Recipe>) -> (v: Vec<(u128, String)>)
    ensures
        sorted_by_name(entry_views(v@)),
        forall|i: int| 0 <= i < v@.len() ==> #[trigger] v@[i].0 != 0 && recipes@.contains_key(v@[i].0)
            && recipes@[v@[i].0].name@ == v@[i].1@,
        forall|id: u128| id != 0 && #[trigger] recipes@.contains_key(id) ==> exists|i: int|
            0 <= i < v@.len() && v@[i].0 == id,
        forall|i: int, j: int| 0 <= i < j < v@.len() ==> #[trigger] v@[i].0 != #[trigger] v@[j].0,
{
    let mut v: Vec<(u128, String)> = Vec::new();
    let ghost entries = recipes.iter().remaining();
    let ghost mut pos: Seq<int> = Seq::empty();
    for item in it: recipes.iter()
        invariant
            entries == it.seq(),
            entries.no_duplicates(),
            forall|k: int|
                #![trigger entries[k]]
                0 <= k < entries.len() ==> recipes@.contains_key(*entries[k].0) && recipes@[*entries[k].0]
                    == *entries[k].1,
            sorted_by_name(entry_views(v@)),
            forall|i: int| 0 <= i < v@.len() ==> #[trigger] v@[i].0 != 0 && recipes@.contains_key(v@[i].0)
                && recipes@[v@[i].0].name@ == v@[i].1@,
            forall|i: int, j: int| 0 <= i < j < v@.len() ==> #[trigger] v@[i].0 != #[trigger] v@[j].0,
            pos.len() == v@.len(),
            forall|i: int| 0 <= i < v@.len() ==> 0 <= #[trigger] pos[i] < it.index() && v@[i].0 == *entries[pos[i]].0,
            forall|k: int| 0 <= k < it.index() ==> *(#[trigger] entries[k]).0 == 0 || exists|i: int|
                0 <= i < v@.len() && v@[i].0 == *entries[k].0,
    {
        let (id, recipe) = item;
        let ghost idx = it.index();
        assert(entries[idx] == (id, recipe));
        if *id != 0 {
            let ghost old_v = v@;
            let ghost old_pos = pos;
            proof {
                assert forall|i: int| 0 <= i < old_v.len() implies old_v[i].0 != *id by {
                    let k = old_pos[i];
                    if old_v[i].0 == *id {
                        assert(*entries[k].1 == recipes@[*id]);
                        assert(entries[k] == entries[idx]);
                    }
                }
            }
            let p = insert_by_name(&mut v, (*id, recipe.name.clone()));
            proof {
                pos = old_pos.insert(p as int, idx);
                lemma_entry_inserted(old_v, v@, p as int, *id);
                assert forall|i: int| 0 <= i < v@.len() implies #[trigger] v@[i].0 != 0 && recipes@.contains_key(v@[i].0)
                    && recipes@[v@[i].0].name@ == v@[i].1@ by {
                    if i < p {
                        assert(v@[i] == old_v[i]);
                    } else if i > p {
                        assert(v@[i] == old_v[i - 1]);
                    }
                }
                assert forall|i: int| 0 <= i < v@.len() implies 0 <= #[trigger] pos[i] < idx + 1 && v@[i].0
                    == *entries[pos[i]].0 by {
                    if i < p {
                        assert(v@[i] == old_v[i] && pos[i] == old_pos[i]);
                    } else if i > p {
                        assert(v@[i] == old_v[i - 1] && pos[i] == old_pos[i - 1]);
                    }
                }
                assert forall|k: int| 0 <= k < idx + 1 implies *(#[trigger] entries[k]).0 == 0 || exists|i: int|
                    0 <= i < v@.len() && v@[i].0 == *entries[k].0 by {
                    if k < idx && *entries[k].0 != 0 {
                        let i = choose|i: int| 0 <= i < old_v.len() && old_v[i].0 == *entries[k].0;
                        if i < p {
                            assert(v@[i] == old_v[i]);
                        } else {
                            assert(v@[i + 1] == old_v[i]);
                        }
                    } else if k == idx {
                        assert(v@[p as int].0 == *id);
                    }
                }
            }
        }
    }
    proof {
        assert forall|id: u128| id != 0 && #[trigger] recipes@.contains_key(id) implies exists|i: int|
            0 <= i < v@.len() && v@[i].0 == id by {
            assert(entries.contains((&id, &recipes@[id])));
            let k = choose|k: int| 0 <= k < entries.len() && entries[k] == (&id, &recipes@[id]);
            assert(*entries[k].0 == id);
        }
    }
    v
}

/// The label of a step in the recipe editor's step list: its number and
/// its type, as `<number>: <type>`.
pub fn step_option_label(index: usize, step_type: StepType) -> (s: String)
    ensures
        s@ == decimal(index as nat) + ": "@ + step_type.spec_name(),
{
    let s = usize_to_string(index);
    let s = join_str(&s, ": ");
    join_str(&s, step_type.name())
}

/// The total time of the steps of type `t`, zero when there is none, as
/// the recipe viewer shows it.
pub fn total_or_zero(totals: &StepTimeTotals, t: StepType) -> (r: Rational)
    ensures
        match totals.spec_get(t) {
            Some(Some(x)) => r == x,
            _ => r.numer == 0 && r.denom == 1,
        },
{
    match totals.get(t) {
        Some(Some(x)) => x,
        _ => Rational::zero(),
    }
}

/// How one character is written in HTML text: the characters that HTML
/// gives a meaning are written as entities.
pub open spec fn html_char(c: char) -> Seq<char> {
    if c == '&' {
        "&amp;"@
    } else if c == '<' {
        "&lt;"@
    } else if c == '>' {
        "&gt;"@
    } else if c == '"' {
        "&quot;"@
    } else if c == '\'' {
        "&#x27;"@
    } else {
        seq![c]
    }
}

/// The text written for HTML, character by character.
pub open spec fn html_escaped(s: Seq<char>) -> Seq<char>
    decreases s.len(),
{
    if s.len() == 0 {
        Seq::empty()
    } else {
        html_escaped(s.drop_last()) + html_char(s.last())
    }
}

/// `html_escape` writes a text so that HTML shows it as it is: `&`, `<`,
/// `>`, `"` and `'` become entities, every other character stays.
pub fn html_escape(s: &str) -> (r: String)
    ensures
        r@ == html_escaped(s@),
{
    let chars = crate::text::chars_of(s);
    let mut r = String::new();
    let mut i: usize = 0;
    assert(chars@.take(0) =~= Seq::<char>::empty());
    while i < chars.len()
        invariant
            i <= chars.len(),
            chars@ == s@,
            r@ == html_escaped(chars@.take(i as int)),
        decreases chars.len() - i,
    {
        let c = chars[i];
        assert(chars@.take(i as int + 1).drop_last() =~= chars@.take(i as int));
        if c == '&' {
            r = join_str(&r, "&amp;");
        } else if c == '<' {
            r = join_str(&r, "&lt;");
        } else if c == '>' {
            r = join_str(&r, "&gt;");
        } else if c == '"' {
            r = join_str(&r, "&quot;");
        } else if c == '\'' {
            r = join_str(&r, "&#x27;");
        } else {
            let ghost before = r@;
            crate::text::push_char(&mut r, c);
            assert(r@ =~= before + seq![c]);
        }
        i += 1;
    }
    assert(chars@.take(i as int) =~= chars@);
    r
}

/// No character that HTML reads as markup.
pub open spec fn is_markup_char(c: char) -> bool {
    c == '<' || c == '>' || c == '"' || c == '\''
}

/// Escaped text holds no markup character: whatever a recipe's text is,
/// a page shows it as text and never reads a tag or an attribute in it.
pub proof fn lemma_html_escaped_has_no_markup(s: Seq<char>)
    ensures
        forall|i: int| 0 <= i < html_escaped(s).len() ==> !is_markup_char(#[trigger] html_escaped(s)[i]),
    decreases s.len(),
{
    if s.len() > 0 {
        lemma_html_escaped_has_no_markup(s.drop_last());
        reveal_strlit("&amp;");
        reveal_strlit("&lt;");
        reveal_strlit("&gt;");
        reveal_strlit("&quot;");
        reveal_strlit("&#x27;");
        let a = html_escaped(s.drop_last());
        let b = html_char(s.last());
        assert forall|i: int| 0 <= i < (a + b).len() implies !is_markup_char(#[trigger] (a + b)[i]) by {
            if i >= a.len() {
                assert((a + b)[i] == b[i - a.len()]);
            } else {
                assert((a + b)[i] == a[i]);
            }
        }
    }
}

} // verus!
