//! Build-outcome classifications and the visual theme that goes with each.

use rand::Rng;
use vstd::prelude::*;

verus! {

/// The kind of build-outcome event being notified about.
#[derive(Clone, Copy, Debug, PartialEq, Eq, Structural)]
pub enum AlertType {
    Success,
    Failed,
    Started,
    Aborted,
    Fixed,
    Broke,
    Errored,
    Custom,
}

/// Number of decorative pictures a notification can show.
pub const PICTURE_COUNT: usize = 5;

/// Colour of the default theme of `a`.
pub open spec fn theme_color(a: AlertType) -> Seq<char> {
    match a {
        AlertType::Success | AlertType::Fixed => "#11c560"@,
        AlertType::Failed | AlertType::Broke => "#ed4b35"@,
        AlertType::Started => "#fad43b"@,
        AlertType::Aborted => "#8b572a"@,
        AlertType::Errored => "#f5a623"@,
        AlertType::Custom => "#35495c"@,
    }
}

/// Status icon of the default theme of `a`.
pub open spec fn theme_icon(a: AlertType) -> Seq<char> {
    match a {
        AlertType::Success | AlertType::Fixed => "https://ci.concourse-ci.org/public/images/favicon-succeeded.png"@,
        AlertType::Failed | AlertType::Broke => "https://ci.concourse-ci.org/public/images/favicon-failed.png"@,
        AlertType::Started => "https://ci.concourse-ci.org/public/images/favicon-started.png"@,
        AlertType::Aborted => "https://ci.concourse-ci.org/public/images/favicon-aborted.png"@,
        AlertType::Errored => "https://ci.concourse-ci.org/public/images/favicon-errored.png"@,
        AlertType::Custom => "https://ci.concourse-ci.org/public/images/favicon-pending.png"@,
    }
}

/// Human-readable phrase describing `a`.
pub open spec fn alert_phrase(a: AlertType) -> Seq<char> {
    match a {
        AlertType::Success => "Success"@,
        AlertType::Failed => "Failed"@,
        AlertType::Started => "Started"@,
        AlertType::Aborted => "Aborted"@,
        AlertType::Fixed => "Fixed"@,
        AlertType::Broke => "Broke"@,
        AlertType::Errored => "Errored"@,
        AlertType::Custom => "Custom"@,
    }
}

/// The decorative picture at position `i` of the pool.
pub open spec fn picture(i: int) -> Seq<char> {
    if i == 0 {
        "https://1.bp.blogspot.com/-Av-RYG5DXLk/XU3nZMLR9yI/AAAAAAAATVA/16f5apNqph4q9K1Z_U6-J6IbnwUFI_togCLcBGAs/s640/rambo%2B3.jpg"@
    } else if i == 1 {
        "https://1.bp.blogspot.com/-s2AlGmyUQmM/XU3m_5JgUBI/AAAAAAAATU4/jUj7T8eCgwk_cSubSLDpSj7EGNESfD9-gCLcBGAs/s640/rambo%2B2.webp"@
    } else if i == 2 {
        "https://static.kino.de/wp-content/uploads/2019/10/rambo-i-iii-1987-film-rcm1024x512u.jpg"@
    } else if i == 3 {
        "https://wegotthiscovered.com/wp-content/uploads/2018/05/rambo-1-670x335.jpg"@
    } else {
        "https://midnightmovietrain.files.wordpress.com/2014/09/rambo-iv-2.jpg"@
    }
}

/// Whether `s` is one of the pictures of the pool.
pub open spec fn is_pool_picture(s: Seq<char>) -> bool {
    exists|i: int| 0 <= i < PICTURE_COUNT as int && #[trigger] picture(i) == s
}

impl AlertType {
    /// Human-readable phrase describing this classification.
    pub fn message(&self) -> (r: &'static str)
        ensures
            r@ == alert_phrase(*self),
    {
        match self {
            AlertType::Success => "Success",
            AlertType::Failed => "Failed",
            AlertType::Started => "Started",
            AlertType::Aborted => "Aborted",
            AlertType::Fixed => "Fixed",
            AlertType::Broke => "Broke",
            AlertType::Errored => "Errored",
            AlertType::Custom => "Custom",
        }
    }

    /// Colour of this classification's default theme.
    pub fn color(&self) -> (r: &'static str)
        ensures
            r@ == theme_color(*self),
    {
        match self {
            AlertType::Success | AlertType::Fixed => "#11c560",
            AlertType::Failed | AlertType::Broke => "#ed4b35",
            AlertType::Started => "#fad43b",
            AlertType::Aborted => "#8b572a",
            AlertType::Errored => "#f5a623",
            AlertType::Custom => "#35495c",
        }
    }

    /// Status icon of this classification's default theme.
    pub fn icon_url(&self) -> (r: &'static str)
        ensures
            r@ == theme_icon(*self),
    {
        match self {
            AlertType::Success | AlertType::Fixed => "https://ci.concourse-ci.org/public/images/favicon-succeeded.png",
            AlertType::Failed | AlertType::Broke => "https://ci.concourse-ci.org/public/images/favicon-failed.png",
            AlertType::Started => "https://ci.concourse-ci.org/public/images/favicon-started.png",
            AlertType::Aborted => "https://ci.concourse-ci.org/public/images/favicon-aborted.png",
            AlertType::Errored => "https://ci.concourse-ci.org/public/images/favicon-errored.png",
            AlertType::Custom => "https://ci.concourse-ci.org/public/images/favicon-pending.png",
        }
    }
}

/// The decorative picture at position `index` of the pool.
pub fn picture_url(index: usize) -> (r: &'static str)
    requires
        index < PICTURE_COUNT,
    ensures
        r@ == picture(index as int),
{
    if index == 0 {
        "https://1.bp.blogspot.com/-Av-RYG5DXLk/XU3nZMLR9yI/AAAAAAAATVA/16f5apNqph4q9K1Z_U6-J6IbnwUFI_togCLcBGAs/s640/rambo%2B3.jpg"
    } else if index == 1 {
        "https://1.bp.blogspot.com/-s2AlGmyUQmM/XU3m_5JgUBI/AAAAAAAATU4/jUj7T8eCgwk_cSubSLDpSj7EGNESfD9-gCLcBGAs/s640/rambo%2B2.webp"
    } else if index == 2 {
        "https://static.kino.de/wp-content/uploads/2019/10/rambo-i-iii-1987-film-rcm1024x512u.jpg"
    } else if index == 3 {
        "https://wegotthiscovered.com/wp-content/uploads/2018/05/rambo-1-670x335.jpg"
    } else {
        "https://midnightmovietrain.files.wordpress.com/2014/09/rambo-iv-2.jpg"
    }
}

/// Relies on rand's `thread_rng().gen_range(low, high)`, which yields a value
/// in `[low, high)` and panics when `low >= high`.
#[verifier::external_body]
pub(crate) fn random_below(high: usize) -> (r: usize)
    requires
        0 < high,
    ensures
        r < high,
{
    rand::thread_rng().gen_range(0, high)
}

/// Which of the six themes `a` has: the same for `Success` and `Fixed`, and
/// for `Failed` and `Broke`.
pub open spec fn theme_group(a: AlertType) -> int {
    match a {
        AlertType::Success | AlertType::Fixed => 0,
        AlertType::Failed | AlertType::Broke => 1,
        AlertType::Started => 2,
        AlertType::Aborted => 3,
        AlertType::Errored => 4,
        AlertType::Custom => 5,
    }
}

} // verus!
