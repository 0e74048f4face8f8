//! Where the rating formula leaves the range of 64-bit floating point numbers.
//!
//! A 64-bit floating point number is less than `2^1024`. The formula adds
//! `10^(a/400)` and `10^(b/400)` for the ratings `a` and `b` of two players. Each
//! of the powers is in the range for a rating of at most [`MAX_RATING`], but the
//! sum of two of them need not be; it then counts as infinite, and nobody expects
//! to score anything.
use vstd::prelude::*;

verus! {

/// The end of the rating scale. For a rating above it, `10^(rating/400)` is out
/// of the range of a 64-bit floating point number.
pub const MAX_RATING: u32 = 123_301;

/// The least rating that makes the sum of the formula infinite together with a
/// higher rating on the scale. Below 123182 no rating on the scale does, and the
/// result is out of reach.
pub open spec fn least_partner(higher: int) -> int {
    if higher >= 123301 {
        122385
    } else if higher >= 123300 {
        122516
    } else if higher >= 123299 {
        122589
    } else if higher >= 123298 {
        122640
    } else if higher >= 123297 {
        122680
    } else if higher >= 123296 {
        122711
    } else if higher >= 123295 {
        122738
    } else if higher >= 123294 {
        122761
    } else if higher >= 123293 {
        122782
    } else if higher >= 123292 {
        122800
    } else if higher >= 123291 {
        122816
    } else if higher >= 123290 {
        122831
    } else if higher >= 123289 {
        122844
    } else if higher >= 123288 {
        122857
    } else if higher >= 123287 {
        122868
    } else if higher >= 123286 {
        122879
    } else if higher >= 123285 {
        122889
    } else if higher >= 123284 {
        122899
    } else if higher >= 123283 {
        122908
    } else if higher >= 123282 {
        122916
    } else if higher >= 123281 {
        122924
    } else if higher >= 123280 {
        122932
    } else if higher >= 123279 {
        122939
    } else if higher >= 123278 {
        122946
    } else if higher >= 123277 {
        122953
    } else if higher >= 123276 {
        122959
    } else if higher >= 123275 {
        122965
    } else if higher >= 123274 {
        122971
    } else if higher >= 123273 {
        122976
    } else if higher >= 123272 {
        122982
    } else if higher >= 123271 {
        122987
    } else if higher >= 123270 {
        122992
    } else if higher >= 123269 {
        122997
    } else if higher >= 123268 {
        123002
    } else if higher >= 123267 {
        123006
    } else if higher >= 123266 {
        123011
    } else if higher >= 123265 {
        123015
    } else if higher >= 123264 {
        123019
    } else if higher >= 123263 {
        123023
    } else if higher >= 123262 {
        123027
    } else if higher >= 123261 {
        123031
    } else if higher >= 123260 {
        123035
    } else if higher >= 123259 {
        123038
    } else if higher >= 123258 {
        123042
    } else if higher >= 123257 {
        123045
    } else if higher >= 123256 {
        123049
    } else if higher >= 123255 {
        123052
    } else if higher >= 123254 {
        123055
    } else if higher >= 123253 {
        123058
    } else if higher >= 123252 {
        123061
    } else if higher >= 123251 {
        123064
    } else if higher >= 123250 {
        123067
    } else if higher >= 123249 {
        123070
    } else if higher >= 123248 {
        123073
    } else if higher >= 123247 {
        123076
    } else if higher >= 123246 {
        123078
    } else if higher >= 123245 {
        123081
    } else if higher >= 123244 {
        123083
    } else if higher >= 123243 {
        123086
    } else if higher >= 123242 {
        123088
    } else if higher >= 123241 {
        123091
    } else if higher >= 123240 {
        123093
    } else if higher >= 123239 {
        123095
    } else if higher >= 123238 {
        123098
    } else if higher >= 123237 {
        123100
    } else if higher >= 123236 {
        123102
    } else if higher >= 123235 {
        123104
    } else if higher >= 123234 {
        123106
    } else if higher >= 123233 {
        123108
    } else if higher >= 123232 {
        123110
    } else if higher >= 123231 {
        123112
    } else if higher >= 123230 {
        123114
    } else if higher >= 123229 {
        123116
    } else if higher >= 123228 {
        123118
    } else if higher >= 123227 {
        123120
    } else if higher >= 123226 {
        123122
    } else if higher >= 123225 {
        123124
    } else if higher >= 123224 {
        123126
    } else if higher >= 123223 {
        123127
    } else if higher >= 123222 {
        123129
    } else if higher >= 123221 {
        123131
    } else if higher >= 123220 {
        123132
    } else if higher >= 123219 {
        123134
    } else if higher >= 123218 {
        123136
    } else if higher >= 123217 {
        123137
    } else if higher >= 123216 {
        123139
    } else if higher >= 123215 {
        123140
    } else if higher >= 123214 {
        123142
    } else if higher >= 123213 {
        123143
    } else if higher >= 123212 {
        123145
    } else if higher >= 123211 {
        123146
    } else if higher >= 123210 {
        123148
    } else if higher >= 123209 {
        123149
    } else if higher >= 123208 {
        123151
    } else if higher >= 123207 {
        123152
    } else if higher >= 123206 {
        123153
    } else if higher >= 123205 {
        123155
    } else if higher >= 123204 {
        123156
    } else if higher >= 123203 {
        123157
    } else if higher >= 123202 {
        123159
    } else if higher >= 123201 {
        123160
    } else if higher >= 123200 {
        123161
    } else if higher >= 123199 {
        123162
    } else if higher >= 123198 {
        123164
    } else if higher >= 123197 {
        123165
    } else if higher >= 123196 {
        123166
    } else if higher >= 123195 {
        123167
    } else if higher >= 123194 {
        123168
    } else if higher >= 123193 {
        123170
    } else if higher >= 123192 {
        123171
    } else if higher >= 123191 {
        123172
    } else if higher >= 123190 {
        123173
    } else if higher >= 123189 {
        123174
    } else if higher >= 123188 {
        123175
    } else if higher >= 123187 {
        123176
    } else if higher >= 123186 {
        123177
    } else if higher >= 123185 {
        123178
    } else if higher >= 123184 {
        123179
    } else if higher >= 123183 {
        123180
    } else if higher >= 123182 {
        123181
    } else {
        0x1_0000_0000
    }
}

/// Whether both ratings are on the scale, but the sum of the formula is infinite.
pub open spec fn sum_is_infinite(a: int, b: int) -> bool {
    let (higher, lower) = if a >= b { (a, b) } else { (b, a) };
    higher <= MAX_RATING && lower >= least_partner(higher)
}

fn compute_least_partner(higher: u32) -> (lower: u64)
    ensures
        lower == least_partner(higher as int),
{
    if higher >= 123301 {
        122385
    } else if higher >= 123300 {
        122516
    } else if higher >= 123299 {
        122589
    } else if higher >= 123298 {
        122640
    } else if higher >= 123297 {
        122680
    } else if higher >= 123296 {
        122711
    } else if higher >= 123295 {
        122738
    } else if higher >= 123294 {
        122761
    } else if higher >= 123293 {
        122782
    } else if higher >= 123292 {
        122800
    } else if higher >= 123291 {
        122816
    } else if higher >= 123290 {
        122831
    } else if higher >= 123289 {
        122844
    } else if higher >= 123288 {
        122857
    } else if higher >= 123287 {
        122868
    } else if higher >= 123286 {
        122879
    } else if higher >= 123285 {
        122889
    } else if higher >= 123284 {
        122899
    } else if higher >= 123283 {
        122908
    } else if higher >= 123282 {
        122916
    } else if higher >= 123281 {
        122924
    } else if higher >= 123280 {
        122932
    } else if higher >= 123279 {
        122939
    } else if higher >= 123278 {
        122946
    } else if higher >= 123277 {
        122953
    } else if higher >= 123276 {
        122959
    } else if higher >= 123275 {
        122965
    } else if higher >= 123274 {
        122971
    } else if higher >= 123273 {
        122976
    } else if higher >= 123272 {
        122982
    } else if higher >= 123271 {
        122987
    } else if higher >= 123270 {
        122992
    } else if higher >= 123269 {
        122997
    } else if higher >= 123268 {
        123002
    } else if higher >= 123267 {
        123006
    } else if higher >= 123266 {
        123011
    } else if higher >= 123265 {
        123015
    } else if higher >= 123264 {
        123019
    } else if higher >= 123263 {
        123023
    } else if higher >= 123262 {
        123027
    } else if higher >= 123261 {
        123031
    } else if higher >= 123260 {
        123035
    } else if higher >= 123259 {
        123038
    } else if higher >= 123258 {
        123042
    } else if higher >= 123257 {
        123045
    } else if higher >= 123256 {
        123049
    } else if higher >= 123255 {
        123052
    } else if higher >= 123254 {
        123055
    } else if higher >= 123253 {
        123058
    } else if higher >= 123252 {
        123061
    } else if higher >= 123251 {
        123064
    } else if higher >= 123250 {
        123067
    } else if higher >= 123249 {
        123070
    } else if higher >= 123248 {
        123073
    } else if higher >= 123247 {
        123076
    } else if higher >= 123246 {
        123078
    } else if higher >= 123245 {
        123081
    } else if higher >= 123244 {
        123083
    } else if higher >= 123243 {
        123086
    } else if higher >= 123242 {
        123088
    } else if higher >= 123241 {
        123091
    } else if higher >= 123240 {
        123093
    } else if higher >= 123239 {
        123095
    } else if higher >= 123238 {
        123098
    } else if higher >= 123237 {
        123100
    } else if higher >= 123236 {
        123102
    } else if higher >= 123235 {
        123104
    } else if higher >= 123234 {
        123106
    } else if higher >= 123233 {
        123108
    } else if higher >= 123232 {
        123110
    } else if higher >= 123231 {
        123112
    } else if higher >= 123230 {
        123114
    } else if higher >= 123229 {
        123116
    } else if higher >= 123228 {
        123118
    } else if higher >= 123227 {
        123120
    } else if higher >= 123226 {
        123122
    } else if higher >= 123225 {
        123124
    } else if higher >= 123224 {
        123126
    } else if higher >= 123223 {
        123127
    } else if higher >= 123222 {
        123129
    } else if higher >= 123221 {
        123131
    } else if higher >= 123220 {
        123132
    } else if higher >= 123219 {
        123134
    } else if higher >= 123218 {
        123136
    } else if higher >= 123217 {
        123137
    } else if higher >= 123216 {
        123139
    } else if higher >= 123215 {
        123140
    } else if higher >= 123214 {
        123142
    } else if higher >= 123213 {
        123143
    } else if higher >= 123212 {
        123145
    } else if higher >= 123211 {
        123146
    } else if higher >= 123210 {
        123148
    } else if higher >= 123209 {
        123149
    } else if higher >= 123208 {
        123151
    } else if higher >= 123207 {
        123152
    } else if higher >= 123206 {
        123153
    } else if higher >= 123205 {
        123155
    } else if higher >= 123204 {
        123156
    } else if higher >= 123203 {
        123157
    } else if higher >= 123202 {
        123159
    } else if higher >= 123201 {
        123160
    } else if higher >= 123200 {
        123161
    } else if higher >= 123199 {
        123162
    } else if higher >= 123198 {
        123164
    } else if higher >= 123197 {
        123165
    } else if higher >= 123196 {
        123166
    } else if higher >= 123195 {
        123167
    } else if higher >= 123194 {
        123168
    } else if higher >= 123193 {
        123170
    } else if higher >= 123192 {
        123171
    } else if higher >= 123191 {
        123172
    } else if higher >= 123190 {
        123173
    } else if higher >= 123189 {
        123174
    } else if higher >= 123188 {
        123175
    } else if higher >= 123187 {
        123176
    } else if higher >= 123186 {
        123177
    } else if higher >= 123185 {
        123178
    } else if higher >= 123184 {
        123179
    } else if higher >= 123183 {
        123180
    } else if higher >= 123182 {
        123181
    } else {
        0x1_0000_0000
    }
}

/// Says whether both ratings are on the scale, but the sum of the formula is
/// infinite.
pub fn is_sum_infinite(a: u32, b: u32) -> (infinite: bool)
    ensures
        infinite == sum_is_infinite(a as int, b as int),
{
    let (higher, lower) = if a >= b { (a, b) } else { (b, a) };
    higher <= MAX_RATING && lower as u64 >= compute_least_partner(higher)
}

proof fn lemma_partner_falls(lower: int, higher: int)
    requires
        lower <= higher,
    ensures
        least_partner(higher) <= least_partner(lower),
{
}

/// The higher the ratings, the greater the sum: it stays infinite when one of two
/// ratings is replaced by a higher one on the scale.
pub proof fn law_sum_grows_with_the_ratings(a: int, b: int, more: int)
    requires
        sum_is_infinite(a, b),
        b <= more <= MAX_RATING,
    ensures
        sum_is_infinite(a, more),
        sum_is_infinite(more, a),
{
    let (higher, lower) = if a >= b { (a, b) } else { (b, a) };
    let top = if higher >= more { higher } else { more };
    lemma_partner_falls(higher, top);
}

/// The sum of the formula is infinite only at the very end of the scale, and it does
/// not matter which of the two ratings comes first.
pub proof fn law_sum_is_finite_below_the_end(a: int, b: int)
    ensures
        sum_is_infinite(a, b) == sum_is_infinite(b, a),
        sum_is_infinite(a, b) ==> (a >= 123182 || b >= 123182),
        sum_is_infinite(a, b) ==> 122385 <= a <= 123301,
        sum_is_infinite(a, b) ==> 122385 <= b <= 123301,
{
}

} // verus!
