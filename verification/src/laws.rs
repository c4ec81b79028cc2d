//! Properties of the library as a whole, stated over the spec functions
//! that the executable functions' contracts use.
use vstd::prelude::*;

use crate::batch::{spec_commit_step, CommitAction, CommitEvent, CommitState};
use crate::connection::{
    builtin_base_url, chosen_base_url, is_first_named, chosen_credential, is_local_provider, opt_view, selected_provider, CodexConfig, CredentialKind, ModelProvider,
};
use crate::error::ImageError;
use crate::format::{extension_of, format_of, ImageFormat};
use crate::request::{is_truncation_end, max_encoded_len, request_rejection, saturate};
use crate::response::{final_name_of, is_image_content_type, staged_name_of};
use crate::text::{decimal, digit_char, is_blank_text, is_white_space, strip_leading, trim_trailing};

verus! {

/// The length of the padded standard base64 text of `n` bytes.
pub open spec fn padded_base64_len(n: nat) -> nat {
    4 * ((n + 2) / 3)
}

/// The size check on base64 text never refuses the encoding of an image
/// that fits the limit: `n <= max` bytes encode to at most
/// `max_encoded_len(max)` characters.
pub proof fn lemma_encoded_size_admits_fitting_images(n: nat, max_image_bytes: u64)
    requires
        n <= max_image_bytes,
        padded_base64_len(n) <= u64::MAX,
    ensures
        padded_base64_len(n) <= max_encoded_len(max_image_bytes),
{
    let m = max_image_bytes as int;
    let a = saturate(m + 2);
    let t = padded_base64_len(n) as int;
    assert(n + 2 <= a) by (nonlinear_arith)
        requires
            n <= m,
            4 * ((n + 2) / 3) <= u64::MAX,
            a == (if m + 2 > u64::MAX {
                u64::MAX as int
            } else {
                m + 2
            }),
    ;
    assert(t <= 4 * (a / 3)) by (nonlinear_arith)
        requires
            n + 2 <= a,
            t == 4 * ((n + 2) / 3),
    ;
}

/// The commit after the renames whose outcomes are `outcomes` (`true` for
/// success), stopping at the first failure or once every image is
/// committed.
pub open spec fn commit_run(total: usize, outcomes: Seq<bool>) -> (CommitState, CommitAction)
    decreases outcomes.len(),
{
    if outcomes.len() == 0 {
        spec_commit_step(CommitState { total, committed: 0, failed: false }, CommitEvent::Start)
    } else {
        let prev = commit_run(total, outcomes.drop_last());
        if prev.0.failed || prev.1 == CommitAction::Finished {
            prev
        } else {
            spec_commit_step(
                prev.0,
                if outcomes.last() {
                    CommitEvent::Renamed
                } else {
                    CommitEvent::RenameFailed
                },
            )
        }
    }
}

/// All or nothing: while renames succeed the commit renames the images in
/// order and finishes exactly when all `total` are committed; the first
/// failed rename, of image `k`, rolls back exactly the `k` images committed
/// before it.
pub proof fn lemma_commit_all_or_nothing(total: usize, outcomes: Seq<bool>)
    requires
        outcomes.len() <= total,
    ensures
        (forall|i: int| 0 <= i < outcomes.len() ==> outcomes[i]) ==> {
            &&& commit_run(total, outcomes).0.committed == outcomes.len()
            &&& !commit_run(total, outcomes).0.failed
            &&& outcomes.len() < total ==> commit_run(total, outcomes).1 == (CommitAction::Rename {
                index: outcomes.len() as usize,
            })
            &&& outcomes.len() == total ==> commit_run(total, outcomes).1 == (CommitAction::Finished)
        },
        forall|k: int|
            0 <= k < outcomes.len() && !outcomes[k] && (forall|i: int| 0 <= i < k ==> outcomes[i])
                ==> #[trigger] commit_run(total, outcomes.take(k + 1)).1 == (CommitAction::RollBack {
                count: k as usize,
            }) && commit_run(total, outcomes).1 == (CommitAction::RollBack { count: k as usize }),
    decreases outcomes.len(),
{
    if outcomes.len() > 0 {
        let prefix = outcomes.drop_last();
        lemma_commit_all_or_nothing(total, prefix);
        assert forall|k: int|
            0 <= k < outcomes.len() && !outcomes[k] && (forall|i: int| 0 <= i < k ==> outcomes[i])
                implies #[trigger] commit_run(total, outcomes.take(k + 1)).1
            == CommitAction::RollBack { count: k as usize } && commit_run(total, outcomes).1
            == CommitAction::RollBack { count: k as usize } by {
            if k < outcomes.len() - 1 {
                assert(prefix.take(k + 1) =~= outcomes.take(k + 1));
                assert(prefix[k] == outcomes[k]);
                assert(forall|i: int| 0 <= i < k ==> prefix[i] == outcomes[i]);
                assert(commit_run(total, prefix).1 == CommitAction::RollBack { count: k as usize });
                assert(commit_run(total, prefix).0.failed);
            } else {
                assert(outcomes.take(k + 1) =~= outcomes);
                assert(forall|i: int| 0 <= i < prefix.len() ==> prefix[i]);
                assert(commit_run(total, prefix).0.committed == k);
            }
        }
    }
    if forall|i: int| 0 <= i < outcomes.len() ==> outcomes[i] {
        lemma_commit_successes(total, outcomes);
    }
}

proof fn lemma_commit_successes(total: usize, outcomes: Seq<bool>)
    requires
        outcomes.len() <= total,
        forall|i: int| 0 <= i < outcomes.len() ==> outcomes[i],
    ensures
        commit_run(total, outcomes).0.total == total,
        commit_run(total, outcomes).0.committed == outcomes.len(),
        !commit_run(total, outcomes).0.failed,
        outcomes.len() < total ==> commit_run(total, outcomes).1 == (CommitAction::Rename {
            index: outcomes.len() as usize,
        }),
        outcomes.len() == total ==> commit_run(total, outcomes).1 == (CommitAction::Finished),
    decreases outcomes.len(),
{
    if outcomes.len() > 0 {
        let prefix = outcomes.drop_last();
        assert(forall|i: int| 0 <= i < prefix.len() ==> prefix[i] == outcomes[i]);
        lemma_commit_successes(total, prefix);
        assert(outcomes.last() == outcomes[outcomes.len() - 1]);
        assert(outcomes.last());
        let prev = commit_run(total, prefix);
        assert(prev.1 != CommitAction::Finished);
        let next = spec_commit_step(prev.0, CommitEvent::Renamed);
        assert(commit_run(total, outcomes) == next);
        let c = (prev.0.committed + 1) as usize;
        assert(c == outcomes.len());
        assert(next.0.committed == c);
        if c < total {
            assert(next.1 == (CommitAction::Rename { index: c }));
        } else {
            assert(next.1 == CommitAction::Finished);
        }
    } else {
        let first = spec_commit_step(
            (CommitState { total, committed: 0, failed: false }),
            CommitEvent::Start,
        );
        assert(commit_run(total, outcomes) == first);
        if 0 < total {
            assert(first.1 == (CommitAction::Rename { index: 0 }));
        } else {
            assert(first.1 == CommitAction::Finished);
        }
    }
}

/// The value of a string of decimal digits.
pub open spec fn digits_value(s: Seq<char>) -> int
    decreases s.len(),
{
    if s.len() == 0 {
        0
    } else {
        digits_value(s.drop_last()) * 10 + digit_value(s.last())
    }
}

/// The value of a decimal digit.
pub open spec fn digit_value(c: char) -> int {
    if c == '1' {
        1
    } else if c == '2' {
        2
    } else if c == '3' {
        3
    } else if c == '4' {
        4
    } else if c == '5' {
        5
    } else if c == '6' {
        6
    } else if c == '7' {
        7
    } else if c == '8' {
        8
    } else if c == '9' {
        9
    } else {
        0
    }
}

/// Every character is a decimal digit.
pub open spec fn all_digits(s: Seq<char>) -> bool {
    forall|i: int| 0 <= i < s.len() ==> '0' <= #[trigger] s[i] <= '9'
}

/// The decimal text of `n` is made of digits, is not empty, and reads
/// back as `n`.
pub proof fn lemma_decimal_value(n: nat)
    ensures
        digits_value(decimal(n)) == n,
        all_digits(decimal(n)),
        decimal(n).len() >= 1,
    decreases n,
{
    if n >= 10 {
        lemma_decimal_value(n / 10);
        let s = decimal(n);
        assert(s.drop_last() =~= decimal(n / 10));
        assert(s.last() == digit_char((n % 10) as nat));
        assert(digit_value(digit_char((n % 10) as nat)) == n % 10);
        assert(digits_value(s) == digits_value(decimal(n / 10)) * 10 + digit_value(s.last()));
        assert(n == (n / 10) * 10 + n % 10);
    } else {
        assert(decimal(n).drop_last() =~= Seq::<char>::empty());
        assert(digits_value(Seq::<char>::empty()) == 0);
        assert(digit_value(digit_char(n)) == n);
    }
}

/// Different numbers have different decimal representations.
pub proof fn lemma_decimal_injective(a: nat, b: nat)
    requires
        decimal(a) == decimal(b),
    ensures
        a == b,
{
    lemma_decimal_value(a);
    lemma_decimal_value(b);
}

/// `x + d1 + t1 == x + d2 + t2` with digit strings `d1`, `d2` and tails
/// starting with a non-digit gives `d1 == d2`.
proof fn lemma_digits_then_separator(x: Seq<char>, d1: Seq<char>, d2: Seq<char>, t1: Seq<char>, t2: Seq<char>)
    requires
        all_digits(d1),
        all_digits(d2),
        t1.len() > 0,
        t2.len() > 0,
        !('0' <= t1[0] <= '9'),
        !('0' <= t2[0] <= '9'),
        x + d1 + t1 == x + d2 + t2,
    ensures
        d1 == d2,
{
    let s1 = x + d1 + t1;
    let s2 = x + d2 + t2;
    if d1.len() < d2.len() {
        assert(s1[(x.len() + d1.len()) as int] == t1[0]);
        assert(s2[(x.len() + d1.len()) as int] == d2[d1.len() as int]);
    } else if d2.len() < d1.len() {
        assert(s2[(x.len() + d2.len()) as int] == t2[0]);
        assert(s1[(x.len() + d2.len()) as int] == d1[d2.len() as int]);
    } else {
        assert forall|i: int| 0 <= i < d1.len() implies d1[i] == d2[i] by {
            assert(s1[x.len() + i] == d1[i]);
            assert(s2[x.len() + i] == d2[i]);
        }
        assert(d1 =~= d2);
    }
}

/// No two images of a batch are staged under the same name.
pub proof fn lemma_staged_names_distinct(i: nat, j: nat)
    requires
        i != j,
    ensures
        staged_name_of(i) != staged_name_of(j),
{
    lemma_decimal_value(i + 1);
    lemma_decimal_value(j + 1);
    reveal_strlit(".tmp");
    if staged_name_of(i) == staged_name_of(j) {
        lemma_digits_then_separator("image-"@, decimal(i + 1), decimal(j + 1), ".tmp"@, ".tmp"@);
        lemma_decimal_injective(i + 1, j + 1);
    }
}

/// No two images of a batch are committed under the same name, whatever
/// their formats: a batch never overwrites one of its own images.
pub proof fn lemma_final_names_distinct(
    run_id: Seq<char>,
    i: nat,
    j: nat,
    f: ImageFormat,
    g: ImageFormat,
)
    requires
        i != j,
    ensures
        final_name_of(run_id, i, f) != final_name_of(run_id, j, g),
{
    lemma_decimal_value(i + 1);
    lemma_decimal_value(j + 1);
    reveal_strlit(".");
    if final_name_of(run_id, i, f) == final_name_of(run_id, j, g) {
        let x = "codex-image-"@ + run_id + "-"@;
        let t1 = "."@ + extension_of(f);
        let t2 = "."@ + extension_of(g);
        assert(final_name_of(run_id, i, f) =~= x + decimal(i + 1) + t1);
        assert(final_name_of(run_id, j, g) =~= x + decimal(j + 1) + t2);
        lemma_digits_then_separator(x, decimal(i + 1), decimal(j + 1), t1, t2);
        lemma_decimal_injective(i + 1, j + 1);
    }
}

/// Complete overrides make the configuration irrelevant: with a base URL
/// given and authentication off or its variable given, every configuration
/// that names a usable provider yields the same base URL and credential as
/// a configuration without `model_provider`.
pub proof fn lemma_complete_overrides_ignore_config(
    config: CodexConfig,
    empty: CodexConfig,
    base_url_override: Seq<char>,
    api_key_env_override: Option<Seq<char>>,
    no_auth: bool,
)
    requires
        empty.model_provider is None,
        no_auth || api_key_env_override is Some,
    ensures
        chosen_base_url(config, selected_provider(config), Some(base_url_override)) == Some(
            base_url_override,
        ),
        chosen_credential(config, selected_provider(config), api_key_env_override, no_auth)
            == chosen_credential(
            empty,
            None::<ModelProvider>,
            api_key_env_override,
            no_auth,
        ),
        no_auth ==> chosen_credential(
            config,
            selected_provider(config),
            api_key_env_override,
            no_auth,
        ) == Some(CredentialKind::NoAuth),
{
}


/// Removing trailing `c` leaves no trailing `c`, and doing it again changes
/// nothing: a resolved base URL joined to an endpoint path gives exactly
/// one `/` between them.
pub proof fn lemma_trim_trailing_idempotent(s: Seq<char>, c: char)
    ensures
        trim_trailing(s, c).len() == 0 || trim_trailing(s, c).last() != c,
        trim_trailing(trim_trailing(s, c), c) == trim_trailing(s, c),
        trim_trailing(s, c).len() <= s.len(),
        trim_trailing(s, c) == s.take(trim_trailing(s, c).len() as int),
    decreases s.len(),
{
    if s.len() > 0 && s.last() == c {
        lemma_trim_trailing_idempotent(s.drop_last(), c);
        assert(trim_trailing(s, c) == trim_trailing(s.drop_last(), c));
        assert(s.drop_last().take(trim_trailing(s, c).len() as int) =~= s.take(
            trim_trailing(s, c).len() as int,
        ));
    } else {
        assert(s.take(s.len() as int) =~= s);
    }
}


/// Which characters are white space: the ASCII controls tab to carriage
/// return, the space and the ideographic space are; no ASCII letter, digit
/// or punctuation character is.
pub proof fn lemma_white_space_characters(c: char)
    ensures
        is_white_space(' '),
        is_white_space('\t'),
        is_white_space('\n'),
        is_white_space('\r'),
        is_white_space('\u{3000}'),
        ('!' <= c <= '~') ==> !is_white_space(c),
{
}

/// Text is blank exactly when all of its characters are white space: one
/// character that is not white space, at any position, makes it
/// non-blank, also with white space appended after it.
pub proof fn lemma_blank_means_all_white_space(s: Seq<char>, i: int, ws: char)
    requires
        0 <= i < s.len(),
        !is_white_space(s[i]),
        is_white_space(ws),
    ensures
        !is_blank_text(s),
        !is_blank_text(s.push(ws)),
        !is_blank_text(seq![ws] + s),
{
    assert(s.push(ws)[i] == s[i]);
    assert((seq![ws] + s)[i + 1] == s[i]);
}

/// Text made of white space only, the empty text among it, is blank.
pub proof fn lemma_white_space_only_is_blank(s: Seq<char>)
    requires
        forall|i: int| 0 <= i < s.len() ==> is_white_space(s[i]),
    ensures
        is_blank_text(s),
        is_blank_text(Seq::<char>::empty()),
{
}

/// A prompt, model or size with a character that is not white space,
/// wherever it stands, is never refused as empty; and white space after a
/// prompt that has such a character changes nothing.
pub proof fn lemma_visible_text_is_not_empty(
    prompt: Seq<char>,
    prompt_bytes: nat,
    model: Seq<char>,
    size: Seq<char>,
    image_count: u32,
    timeout_nanos: u128,
    max_image_bytes: u64,
    i: int,
    ws: char,
)
    requires
        0 <= i < prompt.len(),
        !is_white_space(prompt[i]),
        is_white_space(ws),
    ensures
        request_rejection(prompt, prompt_bytes, model, size, image_count, timeout_nanos, max_image_bytes)
            != Some(ImageError::EmptyPrompt),
        request_rejection(prompt.push(ws), prompt_bytes, model, size, image_count, timeout_nanos, max_image_bytes)
            == request_rejection(prompt, prompt_bytes, model, size, image_count, timeout_nanos, max_image_bytes),
        (exists|j: int| 0 <= j < model.len() && !is_white_space(#[trigger] model[j])) ==> request_rejection(
            prompt, prompt_bytes, model, size, image_count, timeout_nanos, max_image_bytes,
        ) != Some(ImageError::EmptyModel),
        (exists|j: int| 0 <= j < size.len() && !is_white_space(#[trigger] size[j])) ==> request_rejection(
            prompt, prompt_bytes, model, size, image_count, timeout_nanos, max_image_bytes,
        ) != Some(ImageError::EmptySize),
{
    lemma_blank_means_all_white_space(prompt, i, ws);
}

/// A request whose texts are not blank, asks for 1 to 10 images, has a
/// positive timeout and a positive limit, and whose prompt has at most
/// 1 MiB, is accepted.
pub proof fn lemma_valid_request_accepted(
    prompt: Seq<char>,
    prompt_bytes: nat,
    model: Seq<char>,
    size: Seq<char>,
    image_count: u32,
    timeout_nanos: u128,
    max_image_bytes: u64,
)
    requires
        !is_blank_text(prompt),
        !is_blank_text(model),
        !is_blank_text(size),
        prompt_bytes <= 1048576,
        1 <= image_count <= 10,
        timeout_nanos > 0,
        max_image_bytes > 0,
    ensures
        request_rejection(prompt, prompt_bytes, model, size, image_count, timeout_nanos, max_image_bytes)
            is None,
{
}

/// Every `image/...` content type is accepted for a download, and so is
/// `application/octet-stream`.
pub proof fn lemma_every_image_type_accepted(subtype: Seq<char>)
    ensures
        is_image_content_type("image/"@ + subtype),
        is_image_content_type("application/octet-stream"@),
{
    assert(("image/"@ + subtype).take(("image/"@).len() as int) =~= "image/"@);
}

/// Each image signature is recognised, whatever follows it; for WebP the
/// four size bytes between `RIFF` and `WEBP` may hold any value.
pub proof fn lemma_signatures_recognised(bytes: Seq<u8>)
    ensures
        bytes.len() >= 8 && bytes.take(8) == seq![0x89u8, 0x50u8, 0x4eu8, 0x47u8, 0x0du8, 0x0au8, 0x1au8, 0x0au8]
            ==> format_of(bytes) == Some(ImageFormat::Png),
        bytes.len() >= 3 && bytes.take(3) == seq![0xffu8, 0xd8u8, 0xffu8] ==> format_of(bytes) == Some(
            ImageFormat::Jpeg,
        ),
        bytes.len() >= 12 && bytes.take(4) == seq![0x52u8, 0x49u8, 0x46u8, 0x46u8] && bytes.subrange(8, 12)
            == seq![0x57u8, 0x45u8, 0x42u8, 0x50u8] ==> format_of(bytes) == Some(ImageFormat::Webp),
        bytes.len() >= 6 && (bytes.take(6) == seq![0x47u8, 0x49u8, 0x46u8, 0x38u8, 0x37u8, 0x61u8]
            || bytes.take(6) == seq![0x47u8, 0x49u8, 0x46u8, 0x38u8, 0x39u8, 0x61u8]) ==> format_of(bytes)
            == Some(ImageFormat::Gif),
{
    if bytes.len() >= 1 {
        assert(bytes.len() >= 8 ==> bytes.take(8)[0] == bytes[0]);
        assert(bytes.len() >= 3 ==> bytes.take(3)[0] == bytes[0]);
        assert(bytes.len() >= 4 ==> bytes.take(4)[0] == bytes[0]);
        assert(bytes.len() >= 6 ==> bytes.take(6)[0] == bytes[0]);
        assert(bytes.len() >= 8 ==> bytes.subrange(0, 8)[0] == bytes[0]);
        assert(bytes.len() >= 3 ==> bytes.subrange(0, 3)[0] == bytes[0]);
        assert(bytes.len() >= 4 ==> bytes.subrange(0, 4)[0] == bytes[0]);
    }
}

/// Detection looks only at the start of the data: bytes appended to data
/// of a recognised format do not change it.
pub proof fn lemma_format_ignores_what_follows(bytes: Seq<u8>, more: Seq<u8>)
    requires
        format_of(bytes) is Some,
    ensures
        format_of(bytes + more) == format_of(bytes),
{
    let b = bytes + more;
    assert(bytes.len() >= 3);
    assert(b[0] == bytes[0]);
    assert forall|n: int| 0 <= n <= bytes.len() implies #[trigger] b.subrange(0, n) == bytes.subrange(0, n) by {
        assert(b.subrange(0, n) =~= bytes.subrange(0, n));
    }
    assert(bytes.len() >= 12 ==> b.subrange(8, 12) =~= bytes.subrange(8, 12));
    assert(bytes.subrange(0, 3)[0] == bytes[0]);
    assert(b.len() >= 8 ==> b.subrange(0, 8)[0] == b[0]);
    assert(b.len() >= 4 ==> b.subrange(0, 4)[0] == b[0]);
    assert(b.len() >= 6 ==> b.subrange(0, 6)[0] == b[0]);
    assert(b.len() >= 3 ==> b.subrange(0, 3)[0] == b[0]);
}

/// The variable named by the command's override, else the one the selected
/// provider names in `env_key`, holds the key, whatever
/// `requires_openai_auth` says; `--no-auth` sends none.
pub proof fn lemma_env_key_is_used(
    config: CodexConfig,
    provider: ModelProvider,
    api_key_env_override: Seq<char>,
)
    requires
        provider.env_key is Some,
    ensures
        chosen_credential(config, Some(provider), None, false) == Some(
            CredentialKind::EnvVar(provider.env_key->0@),
        ),
        chosen_credential(config, Some(provider), Some(api_key_env_override), false) == Some(
            CredentialKind::EnvVar(api_key_env_override),
        ),
        chosen_credential(config, selected_provider(config), Some(api_key_env_override), false)
            == Some(CredentialKind::EnvVar(api_key_env_override)),
        chosen_credential(config, Some(provider), Some(api_key_env_override), true) == Some(
            CredentialKind::NoAuth,
        ),
{
}

/// OpenAI, selected by name or by default, takes its key from `auth.json`
/// and is reached at `https://api.openai.com/v1` unless a URL is
/// configured; without `--no-auth` a connection goes without a key only
/// for the local providers `ollama` and `lmstudio`.
pub proof fn lemma_openai_uses_codex_auth(config: CodexConfig, api_key_env_override: Option<Seq<char>>)
    ensures
        (config.model_provider is None || config.model_provider->0@ == "openai"@) ==> {
            &&& chosen_credential(config, selected_provider(config), None, false) == Some(
                CredentialKind::AuthFile,
            )
            &&& config.openai_base_url is None ==> chosen_base_url(config, selected_provider(config), None)
                == Some("https://api.openai.com/v1"@)
        },
        chosen_credential(config, selected_provider(config), api_key_env_override, false) == Some(
            CredentialKind::NoAuth,
        ) ==> (config.model_provider is Some && (config.model_provider->0@ == "ollama"@
            || config.model_provider->0@ == "lmstudio"@)),
{
    reveal_strlit("openai");
    reveal_strlit("ollama");
    reveal_strlit("lmstudio");
    assert("openai"@[1] != "ollama"@[1]);
    assert("openai"@.len() != "lmstudio"@.len());
    if config.model_provider is None || config.model_provider->0@ == "openai"@ {
        assert(selected_provider(config) is None);
        assert(!is_local_provider(opt_view(config.model_provider)->0) || config.model_provider is None);
        assert(chosen_credential(config, None, None, false) == Some(CredentialKind::AuthFile));
        assert(builtin_base_url(opt_view(config.model_provider)) == Some("https://api.openai.com/v1"@));
    }
}


/// Error text is cut to at most `max` bytes on a character boundary, and
/// text that fits is kept whole; any two cut points are the same.
pub proof fn lemma_truncation_bounds(bytes: Seq<u8>, max: int, end: int, other: int)
    requires
        vstd::utf8::valid_utf8(bytes),
        max >= 0,
        is_truncation_end(bytes, max, end),
        is_truncation_end(bytes, max, other),
    ensures
        end <= max,
        end <= bytes.len(),
        bytes.len() <= max ==> end == bytes.len(),
        end == other,
{
    vstd::utf8::is_char_boundary_start_end_of_seq(bytes);
}

/// A request for no image or for more than 10 images is refused, unless an
/// earlier check refuses it first.
pub proof fn lemma_image_count_bounds(
    prompt: Seq<char>,
    prompt_bytes: nat,
    model: Seq<char>,
    size: Seq<char>,
    image_count: u32,
    timeout_nanos: u128,
    max_image_bytes: u64,
)
    requires
        image_count == 0 || image_count > 10,
    ensures
        request_rejection(prompt, prompt_bytes, model, size, image_count, timeout_nanos, max_image_bytes)
            is Some,
        request_rejection(prompt, prompt_bytes, model, size, image_count, timeout_nanos, max_image_bytes)
            != Some(ImageError::ZeroTimeout),
        request_rejection(prompt, prompt_bytes, model, size, image_count, timeout_nanos, max_image_bytes)
            != Some(ImageError::ZeroMaxImageBytes),
{
}

/// Stripping a leading prefix leaves text that does not start with it and
/// is a suffix of the input; stripping again changes nothing.
pub proof fn lemma_strip_leading(s: Seq<char>, prefix: Seq<char>)
    requires
        prefix.len() > 0,
    ensures
        !(prefix.len() <= strip_leading(s, prefix).len() && strip_leading(s, prefix).take(
            prefix.len() as int,
        ) == prefix),
        strip_leading(s, prefix).len() <= s.len(),
        strip_leading(s, prefix) == s.skip(s.len() - strip_leading(s, prefix).len()),
        strip_leading(strip_leading(s, prefix), prefix) == strip_leading(s, prefix),
    decreases s.len(),
{
    if prefix.len() <= s.len() && s.take(prefix.len() as int) == prefix {
        let rest = s.skip(prefix.len() as int);
        lemma_strip_leading(rest, prefix);
        let r = strip_leading(rest, prefix);
        assert(rest.skip(rest.len() - r.len()) =~= s.skip(s.len() - r.len()));
    } else {
        assert(s.skip(0) =~= s);
    }
}

/// A configured provider is the first `[model_providers]` entry with the
/// active name.
pub proof fn lemma_first_entry_selected(config: CodexConfig, i: int)
    requires
        config.model_provider is Some,
        !(config.model_provider->0@ == "openai"@ || config.model_provider->0@ == "ollama"@
            || config.model_provider->0@ == "lmstudio"@),
        0 <= i < config.model_providers@.len(),
        config.model_providers@[i].name@ == config.model_provider->0@,
        forall|j: int| 0 <= j < i ==> config.model_providers@[j].name@ != config.model_provider->0@,
    ensures
        selected_provider(config) == Some(config.model_providers@[i].provider),
{
    let name = config.model_provider->0@;
    assert(is_first_named(config.model_providers@, name, i));
    let k = choose|k: int| is_first_named(config.model_providers@, name, k);
    assert(k == i) by {
        if k < i {
        } else if k > i {
        }
    }
}

} // verus!
