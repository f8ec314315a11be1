//! Token-lifecycle laws, proved from the contracts of the credential store
//! and the token service.
use vstd::prelude::*;
use crate::store::{
    UserRefreshToken, UserId, has_token_value, token_of_value, has_token_user, token_of_user,
    tokens_wf,
};
use crate::token::{rotate_post, verify_outcome, jwt_claims_of};

verus! {

/// The token a rotation stored for the user is the one whose value the
/// rotation returned.
proof fn lemma_rotated_token_is_users(
    t0: Seq<UserRefreshToken>,
    t1: Seq<UserRefreshToken>,
    user_id: UserId,
    v1: Seq<char>,
    n1: i64,
)
    requires
        tokens_wf(t1),
        rotate_post(t0, t1, user_id, v1, n1),
    ensures
        has_token_value(t1, v1),
        token_of_value(t1, v1).user_id == user_id,
{
    assert(has_token_value(t1, v1));
    let w = choose|w: int| 0 <= w < t1.len() && (#[trigger] t1[w]).refresh_token@ == v1;
    let w2 = choose|w2: int| 0 <= w2 < t1.len() && (#[trigger] t1[w2]).user_id == user_id;
    assert(t1[w2].refresh_token@ == v1);
    if w != w2 {
        if w < w2 {
            assert(t1[w].refresh_token@ != t1[w2].refresh_token@);
        } else {
            assert(t1[w2].refresh_token@ != t1[w].refresh_token@);
        }
    }
    assert(token_of_value(t1, v1) == t1[w]);
}

/// Refreshing rotates the refresh token: a refresh performed with the value
/// `v1` of an earlier rotation is itself a rotation for the same user, so
/// the value `v2` it hands back differs from `v1`, and `v1` is no longer in
/// the store afterwards — presenting it again fails.
pub proof fn lemma_refresh_rotates(
    t0: Seq<UserRefreshToken>,
    t1: Seq<UserRefreshToken>,
    t2: Seq<UserRefreshToken>,
    user_id: UserId,
    v1: Seq<char>,
    v2: Seq<char>,
    n1: i64,
    n2: i64,
)
    requires
        tokens_wf(t1),
        rotate_post(t0, t1, user_id, v1, n1),
        rotate_post(t1, t2, user_id, v2, n2),
    ensures
        v2 != v1,
        !has_token_value(t2, v1),
        has_token_value(t2, v2),
{
    lemma_rotated_token_is_users(t0, t1, user_id, v1, n1);
    assert(!has_token_value(t1, v2));
    assert(has_token_value(t2, v2));
    assert(!has_token_value(t2, v1));
}

/// Last write wins: in whichever order the store serialized two rotations
/// for the same user, the store afterwards holds the later value as the
/// user's one refresh token, and the earlier value is gone — never two
/// valid refresh tokens for one user.
pub proof fn lemma_single_active_token(
    t0: Seq<UserRefreshToken>,
    t1: Seq<UserRefreshToken>,
    t2: Seq<UserRefreshToken>,
    user_id: UserId,
    v1: Seq<char>,
    v2: Seq<char>,
    n1: i64,
    n2: i64,
)
    requires
        tokens_wf(t1),
        rotate_post(t0, t1, user_id, v1, n1),
        rotate_post(t1, t2, user_id, v2, n2),
    ensures
        has_token_user(t2, user_id),
        token_of_user(t2, user_id).refresh_token@ == v2,
        token_of_user(t2, user_id).created_at == n2,
        v1 != v2,
        !has_token_value(t2, v1),
{
    lemma_refresh_rotates(t0, t1, t2, user_id, v1, v2, n1, n2);
}

/// An access token verifies exactly within its validity window: at any time
/// strictly before the expiry its claims carry, verification succeeds and
/// yields those claims; at any time at or past that expiry, it fails.
pub proof fn lemma_verify_window(
    key: Seq<u8>,
    token: Seq<char>,
    user_id: int,
    exp: int,
    t_early: int,
    t_late: int,
)
    requires
        jwt_claims_of(key, token) == Some((user_id, exp)),
        t_early < exp,
        exp <= t_late,
    ensures
        verify_outcome(key, token, t_early) == Some((user_id, exp)),
        verify_outcome(key, token, t_late) is None,
{
}

} // verus!

