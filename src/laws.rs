//! Properties that hold of every input, stated over the contracts of the library.

use crate::alert::{
    is_pool_picture, picture, theme_color, theme_group, theme_icon, AlertType, PICTURE_COUNT,
};
use crate::build_info::{
    is_known_build, spec_build_name, spec_build_number, spec_build_url, spec_job_name, url_encoded,
    BuildMetadata,
};
use crate::channel::{spec_channel, Source};
use crate::message::{spec_author_name, spec_body, spec_fields, Mode};
use crate::text::{spec_source_text, spec_text, MessageError};
use vstd::prelude::*;

verus! {

/// Whether `t` occurs in `s` at some position.
pub open spec fn occurs_in(t: Seq<char>, s: Seq<char>) -> bool {
    exists|i: int| 0 <= i && i + t.len() <= s.len() && #[trigger] s.subrange(i, i + t.len()) == t
}

/// Every classification has a non-empty default colour and icon, and every
/// position of the pool names one of its pictures.
pub proof fn theme_is_total(a: AlertType, i: int)
    requires
        0 <= i < PICTURE_COUNT,
    ensures
        theme_color(a).len() > 0,
        theme_icon(a).len() > 0,
        is_pool_picture(picture(i)),
{
    reveal_strlit("#11c560");
    reveal_strlit("#ed4b35");
    reveal_strlit("#fad43b");
    reveal_strlit("#8b572a");
    reveal_strlit("#f5a623");
    reveal_strlit("#35495c");
    reveal_strlit("https://ci.concourse-ci.org/public/images/favicon-succeeded.png");
    reveal_strlit("https://ci.concourse-ci.org/public/images/favicon-failed.png");
    reveal_strlit("https://ci.concourse-ci.org/public/images/favicon-started.png");
    reveal_strlit("https://ci.concourse-ci.org/public/images/favicon-aborted.png");
    reveal_strlit("https://ci.concourse-ci.org/public/images/favicon-errored.png");
    reveal_strlit("https://ci.concourse-ci.org/public/images/favicon-pending.png");
}

/// Two classifications have the same colour, and the same icon, exactly when
/// they share a theme.
pub proof fn themes_are_distinct(a: AlertType, b: AlertType)
    ensures
        theme_color(a) == theme_color(b) <==> theme_group(a) == theme_group(b),
        theme_icon(a) == theme_icon(b) <==> theme_group(a) == theme_group(b),
{
    reveal_strlit("#11c560");
    reveal_strlit("#ed4b35");
    reveal_strlit("#fad43b");
    reveal_strlit("#8b572a");
    reveal_strlit("#f5a623");
    reveal_strlit("#35495c");
    reveal_strlit("https://ci.concourse-ci.org/public/images/favicon-succeeded.png");
    reveal_strlit("https://ci.concourse-ci.org/public/images/favicon-failed.png");
    reveal_strlit("https://ci.concourse-ci.org/public/images/favicon-started.png");
    reveal_strlit("https://ci.concourse-ci.org/public/images/favicon-aborted.png");
    reveal_strlit("https://ci.concourse-ci.org/public/images/favicon-errored.png");
    reveal_strlit("https://ci.concourse-ci.org/public/images/favicon-pending.png");
    if theme_group(a) != theme_group(b) {
        assert(theme_color(a)[1] != theme_color(b)[1] || theme_color(a)[2] != theme_color(b)[2]);
        assert(theme_icon(a)[51] != theme_icon(b)[51] || theme_icon(a)[52] != theme_icon(b)[52]);
    }
}

/// Build metadata that lacks the pipeline name, the job name or the build
/// number gives the unknown-build identifiers and no link; with all three the
/// link holds the percent-encoded pipeline and job names as path segments.
pub proof fn build_info_is_total(m: &BuildMetadata)
    ensures
        !is_known_build(m) ==> {
            &&& spec_job_name(m) == "unknown job"@
            &&& spec_build_name(m) == "unknown build"@
            &&& spec_build_number(m) == "unknown build"@
            &&& spec_build_url(m) is None
        },
        is_known_build(m) ==> {
            &&& spec_build_url(m) is Some
            &&& occurs_in(
                "/pipelines/"@ + url_encoded(m.pipeline_name->0@) + "/jobs/"@ + url_encoded(
                    m.job_name->0@,
                ) + "/builds/"@,
                spec_build_url(m)->0,
            )
        },
{
    if is_known_build(m) {
        let head = m.atc_external_url@ + "/teams/"@ + url_encoded(m.team_name@);
        let mid = "/pipelines/"@ + url_encoded(m.pipeline_name->0@) + "/jobs/"@ + url_encoded(
            m.job_name->0@,
        ) + "/builds/"@;
        let url = spec_build_url(m)->0;
        assert(url =~= head + mid + m.name->0@);
        assert(url.subrange(head.len() as int, head.len() + mid.len() as int) =~= mid);
    }
}

/// A file that cannot be read gives way to the inline text; a required file
/// alone that cannot be read is fatal; a text fenced as code is the resolved
/// text between two fences, nothing added.
pub proof fn text_precedence(
    file: Seq<char>,
    inline: Seq<char>,
    fail_if_missing: bool,
    message: Option<Seq<char>>,
    contents: Option<Seq<char>>,
)
    ensures
        spec_text(Some(file), Some(inline), fail_if_missing, None, false) == Ok::<
            Option<Seq<char>>,
            MessageError,
        >(Some(inline)),
        spec_text(Some(file), None, true, None, false) == Err::<Option<Seq<char>>, MessageError>(
            MessageError::RequiredFileMissing,
        ),
        spec_text(Some(file), None, true, None, true) == Err::<Option<Seq<char>>, MessageError>(
            MessageError::RequiredFileMissing,
        ),
        forall|t: Seq<char>|
            spec_source_text(Some(file), message, fail_if_missing, contents) == Ok::<
                Option<Seq<char>>,
                MessageError,
            >(Some(t)) ==> #[trigger] spec_text(
                Some(file),
                message,
                fail_if_missing,
                contents,
                true,
            ) == Ok::<Option<Seq<char>>, MessageError>(Some("```"@ + t + "```"@)),
{
}

/// The trigger name `production` selects the production channel; an absent
/// name, or one that is none of the four, selects the empty channel.
pub proof fn channel_lookup(branch: Seq<char>, source: &Source)
    ensures
        spec_channel(Some("production"@), source) == source.production@,
        spec_channel(None, source) == Seq::<char>::empty(),
        branch != "integration"@ && branch != "production"@ && branch != "staging"@ && branch
            != "hotfix"@ ==> spec_channel(Some(branch), source) == Seq::<char>::empty(),
{
    reveal_strlit("integration");
    reveal_strlit("production");
    assert("production"@[0] != "integration"@[0]);
}

/// In `Concise` mode there are no fields and no body, and the author line is the
/// text where there is one; in `Normal` mode there are no fields and the body is
/// the text; in `NormalWithInfo` there are exactly two fields, `Job` and `Build`.
pub proof fn mode_projection(
    text: Option<Seq<char>>,
    m: &BuildMetadata,
    a: AlertType,
)
    ensures
        spec_fields(Mode::Concise, m) is None,
        spec_body(Mode::Concise, text) is None,
        text is Some ==> spec_author_name(Mode::Concise, text, m, a) == text->0,
        spec_fields(Mode::Normal, m) is None,
        spec_body(Mode::Normal, text) == text,
        spec_fields(Mode::NormalWithInfo, m) is Some,
        spec_fields(Mode::NormalWithInfo, m)->0.len() == 2,
        spec_fields(Mode::NormalWithInfo, m)->0[0].0 == "Job"@,
        spec_fields(Mode::NormalWithInfo, m)->0[1].0 == "Build"@,
{
}

} // verus!
