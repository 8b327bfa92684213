//! Query for the product list of a circle.

use vstd::prelude::*;
use crate::interface::query::Order;
use crate::path::{
    array_segments, has_part, indexed_key_value, key_value, lemma_array_parts, lemma_part_in_left, lemma_part_in_right,
    lemma_part_of_whole, opt_array_segments, opt_key_value, push_opt, push_opt_array, PathSegment,
};
use crate::text::{decimal, owned};

verus! {

/// Options for listing the works of a circle.
#[derive(Default)]
pub struct CircleQuery {
    /// Sort order of the list.
    pub order: Option<Order>,
    /// Product options to filter by.
    pub options: Option<Vec<String>>,
    /// 30, 50 or 100
    pub per_page: Option<u32>,
    /// Page number.
    pub page: Option<u32>,
}

impl CircleQuery {
    /// The request path of the circle's profile page for these options.
    pub open spec fn spec_path(&self, circle_id: Seq<char>) -> Seq<char> {
        "/circle/profile/="@
            + opt_array_segments("options"@, self.options)
            + opt_key_value("per_page"@, self.per_page)
            + "/show_type/3/hd/1/without_order/1"@
            + opt_key_value("page"@, self.page)
            + "/maker_id/"@
            + circle_id
            + ".html"@
            + opt_key_value("order"@, self.order)
    }

    /// Convert the options to the path of the circle's profile page.
    pub fn to_path(&self, circle_id: &str) -> (path: String)
        ensures
            path@ == self.spec_path(circle_id@),
    {
        let mut path = owned("/circle/profile/=");
        push_opt_array(&mut path, "options", &self.options);
        push_opt(&mut path, "per_page", &self.per_page);
        path.append("/show_type/3/hd/1/without_order/1");
        push_opt(&mut path, "page", &self.page);
        path.append("/maker_id/");
        path.append(circle_id);
        path.append(".html");
        push_opt(&mut path, "order", &self.order);
        path
    }
}

proof fn lemma_circle_parts_of_sums()
    ensures
        forall|x: Seq<char>, y: Seq<char>, p: Seq<char>| has_part(x, p) ==> #[trigger] has_part(x + y, p),
        forall|x: Seq<char>, y: Seq<char>, p: Seq<char>| has_part(y, p) ==> #[trigger] has_part(x + y, p),
{
    assert forall|x: Seq<char>, y: Seq<char>, p: Seq<char>| has_part(x, p) implies #[trigger] has_part(x + y, p) by {
        lemma_part_in_left(x, y, p);
    }
    assert forall|x: Seq<char>, y: Seq<char>, p: Seq<char>| has_part(y, p) implies #[trigger] has_part(x + y, p) by {
        lemma_part_in_right(x, y, p);
    }
}

proof fn lemma_circle_per_page_in_path(q: CircleQuery, circle_id: Seq<char>)
    ensures
        q.per_page matches Some(v) ==> has_part(q.spec_path(circle_id), "/per_page/"@ + v.segment()),
{
    if let Some(v) = q.per_page {
        reveal_strlit("/per_page/");
        reveal_strlit("per_page");
        assert(key_value("per_page"@, v.segment()) =~= "/per_page/"@ + v.segment());
        lemma_part_of_whole("/per_page/"@ + v.segment());
        lemma_circle_parts_of_sums();
    }
}

proof fn lemma_circle_page_in_path(q: CircleQuery, circle_id: Seq<char>)
    ensures
        q.page matches Some(v) ==> has_part(q.spec_path(circle_id), "/page/"@ + v.segment()),
{
    if let Some(v) = q.page {
        reveal_strlit("/page/");
        reveal_strlit("page");
        assert(key_value("page"@, v.segment()) =~= "/page/"@ + v.segment());
        lemma_part_of_whole("/page/"@ + v.segment());
        lemma_circle_parts_of_sums();
    }
}

proof fn lemma_circle_order_in_path(q: CircleQuery, circle_id: Seq<char>)
    ensures
        q.order matches Some(v) ==> has_part(q.spec_path(circle_id), "/order/"@ + v.segment()),
{
    if let Some(v) = q.order {
        reveal_strlit("/order/");
        reveal_strlit("order");
        assert(key_value("order"@, v.segment()) =~= "/order/"@ + v.segment());
        lemma_part_of_whole("/order/"@ + v.segment());
        lemma_circle_parts_of_sums();
    }
}

proof fn lemma_circle_options_in_path(q: CircleQuery, circle_id: Seq<char>)
    ensures
        q.options matches Some(v) ==> forall|i: int| #![trigger v@[i]] 0 <= i < v@.len() ==> has_part(
            q.spec_path(circle_id),
            "/options["@ + decimal(i as nat) + "]/"@ + v@[i].segment(),
        ),
{
    if let Some(v) = q.options {
        reveal_strlit("/options[");
        reveal_strlit("options");
        reveal_strlit("]/");
        assert forall|i: int| #![trigger v@[i]] 0 <= i < v@.len() implies has_part(
            q.spec_path(circle_id),
            "/options["@ + decimal(i as nat) + "]/"@ + v@[i].segment(),
        ) by {
            lemma_array_parts("options"@, v@, i);
            assert(indexed_key_value("options"@, i as nat, v@[i].segment()) =~= "/options["@ + decimal(i as nat)
                + "]/"@ + v@[i].segment());
            lemma_circle_parts_of_sums();
        }
    }
}

proof fn lemma_circle_maker_in_path(q: CircleQuery, circle_id: Seq<char>)
    ensures
        has_part(q.spec_path(circle_id), "/maker_id/"@ + circle_id + ".html"@),
{
    let maker = "/maker_id/"@ + circle_id + ".html"@;
    let a = "/circle/profile/="@ + opt_array_segments("options"@, q.options) + opt_key_value("per_page"@, q.per_page)
        + "/show_type/3/hd/1/without_order/1"@ + opt_key_value("page"@, q.page);
    let s3 = a + "/maker_id/"@ + circle_id + ".html"@;
    let d = opt_key_value("order"@, q.order);
    assert(q.spec_path(circle_id) == s3 + d);
    let i = a.len() as int;
    assert(s3.subrange(i, i + maker.len()) =~= maker);
    assert(has_part(s3, maker));
    lemma_part_in_left(s3, d, maker);
}

/// Every option set on a circle query reaches the path under its own name:
/// `/per_page/n`, `/page/n` and `/order/o` for set values (numbers in
/// decimal, the order as it is written), `/options[i]/x` for the `i`-th
/// option `x`, and the circle always stands as `/maker_id/<id>.html`.
pub proof fn lemma_circle_fields_in_path(q: CircleQuery, circle_id: Seq<char>)
    ensures
        q.per_page matches Some(v) ==> has_part(q.spec_path(circle_id), "/per_page/"@ + v.segment()),
        q.page matches Some(v) ==> has_part(q.spec_path(circle_id), "/page/"@ + v.segment()),
        q.order matches Some(v) ==> has_part(q.spec_path(circle_id), "/order/"@ + v.segment()),
        q.options matches Some(v) ==> forall|i: int| #![trigger v@[i]] 0 <= i < v@.len() ==> has_part(
            q.spec_path(circle_id),
            "/options["@ + decimal(i as nat) + "]/"@ + v@[i].segment(),
        ),
        has_part(q.spec_path(circle_id), "/maker_id/"@ + circle_id + ".html"@),
{
    lemma_circle_per_page_in_path(q, circle_id);
    lemma_circle_page_in_path(q, circle_id);
    lemma_circle_order_in_path(q, circle_id);
    lemma_circle_options_in_path(q, circle_id);
    lemma_circle_maker_in_path(q, circle_id);
}

} // verus!
