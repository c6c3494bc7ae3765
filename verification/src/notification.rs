//! The immutable notification configuration and its validating builder.

use vstd::prelude::*;

verus! {

use vstd::string::StrSliceExecFns;

use crate::geometry::Position;
use crate::styles::Style;
use crate::types::{Anchor, Animation, AutoDismiss, BorderType, Level, NotificationError, Padding,
    SizeConstraint, SlideDirection, Timing};

/// The most characters a notification's content (or title) may hold.
pub const CONTENT_LIMIT: usize = 4096;

/// A notification's full, immutable configuration. Values are created
/// through [`NotificationBuilder`], which validates them; after that the
/// configuration never changes.
#[derive(Debug, Clone)]
pub struct Notification {
    /// The message text; lines are separated by newline characters.
    pub content: String,
    /// An optional title shown in the border.
    pub title: Option<String>,
    /// Severity level, driving default colors and icon.
    pub level: Option<Level>,
    /// Where on the frame the notification is placed.
    pub anchor: Anchor,
    /// The entry/exit animation kind.
    pub animation: Animation,
    /// The slide direction; `Default` defers to the anchor.
    pub slide_direction: SlideDirection,
    /// An explicit entry position overriding the computed off-screen start.
    pub custom_entry_position: Option<Position>,
    /// An explicit exit position overriding the computed off-screen end.
    pub custom_exit_position: Option<Position>,
    /// Whether a slide animation additionally cross-fades.
    pub fade_effect: bool,
    /// The border glyph family, or `None` for no border.
    pub border_type: Option<BorderType>,
    /// Style override for the box interior.
    pub block_style: Option<Style>,
    /// Style override for the border.
    pub border_style: Option<Style>,
    /// Style override for the title.
    pub title_style: Option<Style>,
    /// Upper bound on the box width.
    pub max_width: Option<SizeConstraint>,
    /// Upper bound on the box height.
    pub max_height: Option<SizeConstraint>,
    /// Interior padding between border and content.
    pub padding: Padding,
    /// Exterior margin pushing the box away from the frame edge.
    pub margin: u16,
    /// Duration of the entry animation, in milliseconds.
    pub slide_in_timing: Timing,
    /// Duration of the dwell period when auto-dismissal is in effect.
    pub dwell_timing: Timing,
    /// Duration of the exit animation, in milliseconds.
    pub slide_out_timing: Timing,
    /// Whether and when the notification dismisses itself.
    pub auto_dismiss: AutoDismiss,
}

impl Notification {
    /// Bounds that every built (or default) notification satisfies: content
    /// and title within the size limit, and percentage constraints within
    /// one hundred percent.
    pub open spec fn wf(self) -> bool {
        &&& self.content@.len() <= CONTENT_LIMIT
        &&& (self.title is Some ==> self.title->0@.len() <= CONTENT_LIMIT)
        &&& (self.max_width matches Some(SizeConstraint::Percentage(p)) ==> p <= 100)
        &&& (self.max_height matches Some(SizeConstraint::Percentage(p)) ==> p <= 100)
    }

    /// Start building a notification with the given content.
    pub fn new(content: &str) -> (b: NotificationBuilder)
        ensures
            b.config.content@ == content@,
            is_default_config(b.config),
    {
        NotificationBuilder::new(content)
    }

    /// Start building a notification with the given content.
    pub fn builder(content: &str) -> (b: NotificationBuilder)
        ensures
            b.config.content@ == content@,
            is_default_config(b.config),
    {
        NotificationBuilder::new(content)
    }

    pub fn content(&self) -> (r: &String)
        ensures
            r == &self.content,
    {
        &self.content
    }

    pub fn title(&self) -> (r: &Option<String>)
        ensures
            r == &self.title,
    {
        &self.title
    }

    pub fn level(&self) -> (r: Option<Level>)
        ensures
            r == self.level,
    {
        self.level
    }

    pub fn anchor(&self) -> (r: Anchor)
        ensures
            r == self.anchor,
    {
        self.anchor
    }

    pub fn animation(&self) -> (r: Animation)
        ensures
            r == self.animation,
    {
        self.animation
    }

    pub fn slide_direction(&self) -> (r: SlideDirection)
        ensures
            r == self.slide_direction,
    {
        self.slide_direction
    }

    pub fn custom_entry_position(&self) -> (r: Option<Position>)
        ensures
            r == self.custom_entry_position,
    {
        self.custom_entry_position
    }

    pub fn custom_exit_position(&self) -> (r: Option<Position>)
        ensures
            r == self.custom_exit_position,
    {
        self.custom_exit_position
    }

    pub fn fade_effect(&self) -> (r: bool)
        ensures
            r == self.fade_effect,
    {
        self.fade_effect
    }

    pub fn border_type(&self) -> (r: Option<BorderType>)
        ensures
            r == self.border_type,
    {
        self.border_type
    }

    pub fn block_style(&self) -> (r: Option<Style>)
        ensures
            r == self.block_style,
    {
        self.block_style
    }

    pub fn border_style(&self) -> (r: Option<Style>)
        ensures
            r == self.border_style,
    {
        self.border_style
    }

    pub fn title_style(&self) -> (r: Option<Style>)
        ensures
            r == self.title_style,
    {
        self.title_style
    }

    pub fn max_width(&self) -> (r: Option<SizeConstraint>)
        ensures
            r == self.max_width,
    {
        self.max_width
    }

    pub fn max_height(&self) -> (r: Option<SizeConstraint>)
        ensures
            r == self.max_height,
    {
        self.max_height
    }

    pub fn padding(&self) -> (r: Padding)
        ensures
            r == self.padding,
    {
        self.padding
    }

    pub fn margin(&self) -> (r: u16)
        ensures
            r == self.margin,
    {
        self.margin
    }

    pub fn slide_in_timing(&self) -> (r: Timing)
        ensures
            r == self.slide_in_timing,
    {
        self.slide_in_timing
    }

    pub fn dwell_timing(&self) -> (r: Timing)
        ensures
            r == self.dwell_timing,
    {
        self.dwell_timing
    }

    pub fn slide_out_timing(&self) -> (r: Timing)
        ensures
            r == self.slide_out_timing,
    {
        self.slide_out_timing
    }

    pub fn auto_dismiss(&self) -> (r: AutoDismiss)
        ensures
            r == self.auto_dismiss,
    {
        self.auto_dismiss
    }
}

/// Every field of the default configuration except the content: no title,
/// info level, bottom-right anchor, slide animation with automatic timings,
/// rounded border, one cell of horizontal padding, width at most forty
/// percent and height at most twenty percent of the frame, dismissal after
/// four seconds.
pub open spec fn is_default_config(n: Notification) -> bool {
    &&& n.title is None
    &&& n.level == Some(Level::Info)
    &&& n.anchor is BottomRight
    &&& n.animation is Slide
    &&& n.slide_direction is Default
    &&& n.custom_entry_position is None
    &&& n.custom_exit_position is None
    &&& n.fade_effect == false
    &&& n.border_type == Some(BorderType::Rounded)
    &&& n.block_style is None
    &&& n.border_style is None
    &&& n.title_style is None
    &&& n.max_width == Some(SizeConstraint::Percentage(40u16))
    &&& n.max_height == Some(SizeConstraint::Percentage(20u16))
    &&& n.padding == (Padding { left: 1u16, right: 1u16, top: 0u16, bottom: 0u16 })
    &&& n.margin == 0
    &&& n.slide_in_timing is Auto
    &&& n.dwell_timing is Auto
    &&& n.slide_out_timing is Auto
    &&& n.auto_dismiss == AutoDismiss::After(4000u64)
}

impl Default for Notification {
    /// The default configuration: empty content, info level, bottom-right
    /// anchor, slide animation with automatic timings, rounded border, one
    /// cell of horizontal padding, width at most forty percent and height at
    /// most twenty percent of the frame, dismissal after four seconds.
    fn default() -> (n: Notification)
        ensures
            n.content@ == Seq::<char>::empty(),
            is_default_config(n),
            n.wf(),
    {
        Notification {
            content: String::new(),
            title: None,
            level: Some(Level::Info),
            anchor: Anchor::BottomRight,
            animation: Animation::Slide,
            slide_direction: SlideDirection::Default,
            custom_entry_position: None,
            custom_exit_position: None,
            fade_effect: false,
            border_type: Some(BorderType::Rounded),
            block_style: None,
            border_style: None,
            title_style: None,
            max_width: Some(SizeConstraint::Percentage(40)),
            max_height: Some(SizeConstraint::Percentage(20)),
            padding: Padding { left: 1, right: 1, top: 0, bottom: 0 },
            margin: 0,
            slide_in_timing: Timing::Auto,
            dwell_timing: Timing::Auto,
            slide_out_timing: Timing::Auto,
            auto_dismiss: AutoDismiss::After(4000),
        }
    }
}

/// A fluent builder for [`Notification`]. Setters replace one field each;
/// [`NotificationBuilder::build`] validates the result.
#[derive(Debug, Clone)]
pub struct NotificationBuilder {
    /// The configuration assembled so far. Only `build` validates it.
    pub config: Notification,
}

/// Whether the builder's configuration passes validation.
pub open spec fn spec_config_valid(n: Notification) -> bool {
    &&& !(n.content@.len() == 0 && n.title is None)
    &&& n.content@.len() <= CONTENT_LIMIT
    &&& (n.title is Some ==> n.title->0@.len() <= CONTENT_LIMIT)
    &&& (n.max_width matches Some(SizeConstraint::Percentage(p)) ==> p <= 100)
    &&& (n.max_height matches Some(SizeConstraint::Percentage(p)) ==> p <= 100)
}

impl NotificationBuilder {
    /// Start from the default configuration with the given content.
    pub fn new(content: &str) -> (b: NotificationBuilder)
        ensures
            b.config.content@ == content@,
            is_default_config(b.config),
    {
        let mut config = Notification::default();
        config.content = content.to_owned();
        NotificationBuilder { config }
    }

    /// Set the title shown in the border.
    pub fn title(self, title: &str) -> (b: NotificationBuilder)
        ensures
            (b.config.title is Some),
            b.config.title->0@ == title@,
            (Notification { title: self.config.title, ..b.config }) == self.config,
    {
        NotificationBuilder {
            config: Notification { title: Some(title.to_owned()), ..self.config },
        }
    }

    /// Set the severity level.
    pub fn level(self, level: Level) -> (b: NotificationBuilder)
        ensures
            b.config == (Notification { level: Some(level), ..self.config }),
    {
        NotificationBuilder { config: Notification { level: Some(level), ..self.config } }
    }

    /// Set the anchor the notification is placed at.
    pub fn anchor(self, anchor: Anchor) -> (b: NotificationBuilder)
        ensures
            b.config == (Notification { anchor, ..self.config }),
    {
        NotificationBuilder { config: Notification { anchor, ..self.config } }
    }

    /// Set the animation kind.
    pub fn animation(self, animation: Animation) -> (b: NotificationBuilder)
        ensures
            b.config == (Notification { animation, ..self.config }),
    {
        NotificationBuilder { config: Notification { animation, ..self.config } }
    }

    /// Set the slide direction.
    pub fn slide_direction(self, direction: SlideDirection) -> (b: NotificationBuilder)
        ensures
            b.config == (Notification { slide_direction: direction, ..self.config }),
    {
        NotificationBuilder { config: Notification { slide_direction: direction, ..self.config } }
    }

    /// Set an explicit entry position for slide animations.
    pub fn entry_position(self, position: Position) -> (b: NotificationBuilder)
        ensures
            b.config == (Notification { custom_entry_position: Some(position), ..self.config }),
    {
        NotificationBuilder {
            config: Notification { custom_entry_position: Some(position), ..self.config },
        }
    }

    /// Set an explicit exit position for slide animations.
    pub fn exit_position(self, position: Position) -> (b: NotificationBuilder)
        ensures
            b.config == (Notification { custom_exit_position: Some(position), ..self.config }),
    {
        NotificationBuilder {
            config: Notification { custom_exit_position: Some(position), ..self.config },
        }
    }

    /// Enable or disable cross-fading for slide animations.
    pub fn fade(self, fade: bool) -> (b: NotificationBuilder)
        ensures
            b.config == (Notification { fade_effect: fade, ..self.config }),
    {
        NotificationBuilder { config: Notification { fade_effect: fade, ..self.config } }
    }

    /// Set the border glyph family.
    pub fn border_type(self, border_type: BorderType) -> (b: NotificationBuilder)
        ensures
            b.config == (Notification { border_type: Some(border_type), ..self.config }),
    {
        NotificationBuilder {
            config: Notification { border_type: Some(border_type), ..self.config },
        }
    }

    /// Set the style override for the box interior.
    pub fn block_style(self, style: Style) -> (b: NotificationBuilder)
        ensures
            b.config == (Notification { block_style: Some(style), ..self.config }),
    {
        NotificationBuilder { config: Notification { block_style: Some(style), ..self.config } }
    }

    /// Set the style override for the border.
    pub fn border_style(self, style: Style) -> (b: NotificationBuilder)
        ensures
            b.config == (Notification { border_style: Some(style), ..self.config }),
    {
        NotificationBuilder { config: Notification { border_style: Some(style), ..self.config } }
    }

    /// Set the style override for the title.
    pub fn title_style(self, style: Style) -> (b: NotificationBuilder)
        ensures
            b.config == (Notification { title_style: Some(style), ..self.config }),
    {
        NotificationBuilder { config: Notification { title_style: Some(style), ..self.config } }
    }

    /// Set the maximum width and height constraints.
    pub fn max_size(self, width: SizeConstraint, height: SizeConstraint) -> (b: NotificationBuilder)
        ensures
            b.config == (Notification {
                max_width: Some(width),
                max_height: Some(height),
                ..self.config
            }),
    {
        NotificationBuilder {
            config: Notification {
                max_width: Some(width),
                max_height: Some(height),
                ..self.config
            },
        }
    }

    /// Set the interior padding.
    pub fn padding(self, padding: Padding) -> (b: NotificationBuilder)
        ensures
            b.config == (Notification { padding, ..self.config }),
    {
        NotificationBuilder { config: Notification { padding, ..self.config } }
    }

    /// Set the exterior margin.
    pub fn margin(self, margin: u16) -> (b: NotificationBuilder)
        ensures
            b.config == (Notification { margin, ..self.config }),
    {
        NotificationBuilder { config: Notification { margin, ..self.config } }
    }

    /// Set the entry, dwell and exit timings.
    pub fn timing(self, slide_in: Timing, dwell: Timing, slide_out: Timing) -> (b:
        NotificationBuilder)
        ensures
            b.config == (Notification {
                slide_in_timing: slide_in,
                dwell_timing: dwell,
                slide_out_timing: slide_out,
                ..self.config
            }),
    {
        NotificationBuilder {
            config: Notification {
                slide_in_timing: slide_in,
                dwell_timing: dwell,
                slide_out_timing: slide_out,
                ..self.config
            },
        }
    }

    /// Set the auto-dismissal policy.
    pub fn auto_dismiss(self, auto_dismiss: AutoDismiss) -> (b: NotificationBuilder)
        ensures
            b.config == (Notification { auto_dismiss, ..self.config }),
    {
        NotificationBuilder { config: Notification { auto_dismiss, ..self.config } }
    }

    /// Validate the assembled configuration.
    ///
    /// Succeeds exactly when the configuration is valid; the built value is
    /// the configuration unchanged. Fails with `InvalidConfig` when content
    /// is empty and no title is set or when a percentage constraint exceeds
    /// one hundred, and with `ContentTooLarge` when the content or the title
    /// exceeds the character limit.
    pub fn build(self) -> (r: Result<Notification, NotificationError>)
        ensures
            r is Ok <==> spec_config_valid(self.config),
            r is Ok ==> r->Ok_0 == self.config && r->Ok_0.wf(),
            self.config.content@.len() == 0 && self.config.title is None ==> r matches Err(
                NotificationError::InvalidConfig(_),
            ),
            !(self.config.content@.len() == 0 && self.config.title is None)
                && self.config.content@.len() > CONTENT_LIMIT ==> r == Err::<
                Notification,
                _,
            >(NotificationError::ContentTooLarge(self.config.content@.len() as usize, CONTENT_LIMIT)),
            !(self.config.content@.len() == 0 && self.config.title is None)
                && self.config.content@.len() <= CONTENT_LIMIT && self.config.title is Some
                && self.config.title->0@.len() > CONTENT_LIMIT ==> r == Err::<
                Notification,
                _,
            >(NotificationError::ContentTooLarge(
                self.config.title->0@.len() as usize,
                CONTENT_LIMIT,
            )),
    {
        let content_len = self.config.content.as_str().unicode_len();
        if content_len == 0 && self.config.title.is_none() {
            return Err(
                NotificationError::InvalidConfig(
                    "content is empty and no title is set".to_owned(),
                ),
            );
        }
        if content_len > CONTENT_LIMIT {
            return Err(NotificationError::ContentTooLarge(content_len, CONTENT_LIMIT));
        }
        if let Some(title) = &self.config.title {
            let title_len = title.as_str().unicode_len();
            if title_len > CONTENT_LIMIT {
                return Err(NotificationError::ContentTooLarge(title_len, CONTENT_LIMIT));
            }
        }
        if let Some(SizeConstraint::Percentage(p)) = self.config.max_width {
            if p > 100 {
                return Err(
                    NotificationError::InvalidConfig(
                        "width percentage exceeds one hundred".to_owned(),
                    ),
                );
            }
        }
        if let Some(SizeConstraint::Percentage(p)) = self.config.max_height {
            if p > 100 {
                return Err(
                    NotificationError::InvalidConfig(
                        "height percentage exceeds one hundred".to_owned(),
                    ),
                );
            }
        }
        Ok(self.config)
    }
}

} // verus!
