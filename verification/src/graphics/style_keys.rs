//! The keys of the style file: each one's JSON name and the kind of value it holds.
//! Every key must be present in the file with a value of its kind.

use crate::graphics::ui_style::ValueKind;
use vstd::prelude::*;

verus! {

/// A key of the style file.
#[derive(Debug, Clone, Copy, PartialEq, Eq, Hash, Structural)]
pub enum StyleKey {
    // Global
    GlobalContrast,
    GlobalBackgroundColor,
    GlobalFontPath,
    GlobalFontSize,

    // Page manager
    PageButtonLabelFont,
    PageButtonLabelFontSize,
    PageButtonLabelOrientation,
    PageButtonLabelColor,
    PageButtonPressedFrameColor,
    PageButtonPressedFrameWidth,
    PageButtonPressedFramePadding,
    PageStatusFont,
    PageStatusFontSize,
    PageStatusColor,

    // Gauge
    GaugeBackgroundColor,
    GaugeBorderColor,
    GaugeBorderWidth,
    GaugeRadius,

    // Gauge needle
    GaugeNeedleColor,
    GaugeNeedleWidth,
    GaugeNeedleLength,
    GaugeNeedleTipWidth,
    GaugeNeedleCenterColor,
    GaugeNeedleCenterRadius,
    GaugeNeedleShadowEnabled,
    GaugeNeedleShadowColor,
    GaugeNeedleGlowEnabled,

    // Gauge marks
    GaugeMajorMarkColor,
    GaugeMajorMarkWidth,
    GaugeMajorMarkLength,
    GaugeMajorMarkOffset,
    GaugeMajorMarkEnabled,
    GaugeMajorMarkCount,
    GaugeMinorMarkColor,
    GaugeMinorMarkWidth,
    GaugeMinorMarkLength,
    GaugeMinorMarkOffset,
    GaugeMinorMarkEnabled,
    GaugeMinorMarkCount,

    // Gauge labels
    GaugeLabelColor,
    GaugeLabelFont,
    GaugeLabelFontSize,
    GaugeLabelOffset,
    GaugeLabelEnabled,
    GaugeTitleColor,
    GaugeTitleFont,
    GaugeTitleFontSize,
    GaugeTitleOffsetH,
    GaugeTitleOffsetV,
    GaugeTitleEnabled,
    GaugeUnitColor,
    GaugeUnitFont,
    GaugeUnitFontSize,
    GaugeUnitOffsetH,
    GaugeUnitOffsetV,
    GaugeUnitEnabled,

    // Gauge zones
    GaugeNormalZoneColor,
    GaugeNormalZoneWidth,
    GaugeNormalZoneEnabled,
    GaugeWarningZoneColor,
    GaugeWarningZoneWidth,
    GaugeWarningZoneEnabled,
    GaugeCriticalZoneColor,
    GaugeCriticalZoneWidth,
    GaugeCriticalZoneEnabled,
    GaugeInactiveZoneColor,
    GaugeInactiveZoneWidth,
    GaugeInactiveZoneEnabled,

    // Bar indicator
    BarBackgroundColor,
    BarBackgroundEnabled,
    BarBorderColor,
    BarBorderEnabled,
    BarBorderWidth,
    BarCornerRadius,
    BarEmptyColor,
    BarNormalColor,
    BarWarningColor,
    BarCriticalColor,
    BarMarksColor,
    BarMarksWidth,
    BarMarksThickness,
    BarMarkLabelsColor,
    BarSegmentCount,
    BarSegmentGap,

    // Compass
    CompassMajorMarkColor,
    CompassMinorMarkColor,
    CompassLabelColor,
    CompassLabelFont,
    CompassLabelFontSize,
    CompassArrowColor,
    CompassCenterLineColor,
    CompassHeadingColor,
    CompassHdopExcellentColor,
    CompassHdopGoodColor,
    CompassHdopModerateColor,
    CompassHdopPoorColor,

    // Pitch (artificial horizon)
    PitchSkyColor,
    PitchGroundColor,
    PitchAboveHorizonLabelColor,
    PitchBelowHorizonLabelColor,
    PitchBorderColor,
    PitchBorderWidth,
    PitchLabelFont,
    PitchLabelFontSize,
    RollIndicatorColor,
    RollScaleColor,
    RollScaleLabelFont,
    RollScaleLabelFontSize,

    // Text
    TextPrimaryColor,
    TextSecondaryColor,
    TextAccentColor,
    TextWarningColor,
    TextErrorColor,
    TextPrimaryFont,
    TextPrimaryFontSize,
    TextSecondaryFont,
    TextSecondaryFontSize,
    TextMonospaceFont,
    TextMonospaceFontSize,
    TextSmallFont,
    TextSmallFontSize,
    TextLineSpacing,
    TextLetterSpacing,

    // Terminal / scrolling text box
    TerminalBackgroundColor,
    TerminalBackgroundEnabled,
    TerminalBorderColor,
    TerminalBorderEnabled,
    TerminalBorderWidth,
    TerminalTextColor,
    TerminalPadding,

    // Digital display (7-segment style)
    DigitalDisplayFont,
    DigitalDisplayFontSize,
    DigitalDisplayScale,
    DigitalDisplayActiveColor,
    DigitalDisplayInactiveColor,
    DigitalDisplayInactiveColorBlending,
    DigitalDisplayBackgroundColor,
    DigitalDisplayBackgroundEnabled,
    DigitalDisplayBorderEnabled,
    DigitalDisplayBorderColor,
    DigitalDisplayBorderWidth,
    DigitalDisplayBorderRadius,
    DigitalDisplayFontItalic,
    DigitalDisplay14SegFont,
    DigitalDisplay14SegItalic,

    // Warning indicator
    IndicatorNormalColor,
    IndicatorWarningColor,
    IndicatorCriticalColor,
    IndicatorOffColor,
    IndicatorBlinkSpeed,
    IndicatorGlowEnabled,
    IndicatorGlowRadius,
    IndicatorSize,

    // Animation
    AnimationNeedleSpeed,
    AnimationBarSpeed,
    AnimationSmoothEnabled,

    // Alerts
    AlertFontPath,
    AlertFontSize,
    AlertWarningColor,
    AlertCriticalColor,
    AlertBackgroundColor,
    AlertBorderColor,
    AlertBorderWidth,
    AlertMargin,
    AlertCornerRadius,
    AlertSoundPath,
}

/// The JSON name of a key.
pub open spec fn key_name(k: StyleKey) -> Seq<char> {
    match k {
        StyleKey::GlobalContrast => "global_contrast"@,
        StyleKey::GlobalBackgroundColor => "global_background_color"@,
        StyleKey::GlobalFontPath => "global_font_path"@,
        StyleKey::GlobalFontSize => "global_font_size"@,
        StyleKey::PageButtonLabelFont => "page_button_label_font"@,
        StyleKey::PageButtonLabelFontSize => "page_button_label_font_size"@,
        StyleKey::PageButtonLabelOrientation => "page_button_label_orientation"@,
        StyleKey::PageButtonLabelColor => "page_button_label_color"@,
        StyleKey::PageButtonPressedFrameColor => "page_button_pressed_frame_color"@,
        StyleKey::PageButtonPressedFrameWidth => "page_button_pressed_frame_width"@,
        StyleKey::PageButtonPressedFramePadding => "page_button_pressed_frame_padding"@,
        StyleKey::PageStatusFont => "page_status_font"@,
        StyleKey::PageStatusFontSize => "page_status_font_size"@,
        StyleKey::PageStatusColor => "page_status_color"@,
        StyleKey::GaugeBackgroundColor => "gauge_background_color"@,
        StyleKey::GaugeBorderColor => "gauge_border_color"@,
        StyleKey::GaugeBorderWidth => "gauge_border_width"@,
        StyleKey::GaugeRadius => "gauge_radius"@,
        StyleKey::GaugeNeedleColor => "gauge_needle_color"@,
        StyleKey::GaugeNeedleWidth => "gauge_needle_width"@,
        StyleKey::GaugeNeedleLength => "gauge_needle_length"@,
        StyleKey::GaugeNeedleTipWidth => "gauge_needle_tip_width"@,
        StyleKey::GaugeNeedleCenterColor => "gauge_needle_center_color"@,
        StyleKey::GaugeNeedleCenterRadius => "gauge_needle_center_radius"@,
        StyleKey::GaugeNeedleShadowEnabled => "gauge_needle_shadow_enabled"@,
        StyleKey::GaugeNeedleShadowColor => "gauge_needle_shadow_color"@,
        StyleKey::GaugeNeedleGlowEnabled => "gauge_needle_glow_enabled"@,
        StyleKey::GaugeMajorMarkColor => "gauge_major_mark_color"@,
        StyleKey::GaugeMajorMarkWidth => "gauge_major_mark_width"@,
        StyleKey::GaugeMajorMarkLength => "gauge_major_mark_length"@,
        StyleKey::GaugeMajorMarkOffset => "gauge_major_mark_offset"@,
        StyleKey::GaugeMajorMarkEnabled => "gauge_major_mark_enabled"@,
        StyleKey::GaugeMajorMarkCount => "gauge_major_mark_count"@,
        StyleKey::GaugeMinorMarkColor => "gauge_minor_mark_color"@,
        StyleKey::GaugeMinorMarkWidth => "gauge_minor_mark_width"@,
        StyleKey::GaugeMinorMarkLength => "gauge_minor_mark_length"@,
        StyleKey::GaugeMinorMarkOffset => "gauge_minor_mark_offset"@,
        StyleKey::GaugeMinorMarkEnabled => "gauge_minor_mark_enabled"@,
        StyleKey::GaugeMinorMarkCount => "gauge_minor_mark_count"@,
        StyleKey::GaugeLabelColor => "gauge_label_color"@,
        StyleKey::GaugeLabelFont => "gauge_label_font"@,
        StyleKey::GaugeLabelFontSize => "gauge_label_font_size"@,
        StyleKey::GaugeLabelOffset => "gauge_label_offset"@,
        StyleKey::GaugeLabelEnabled => "gauge_label_enabled"@,
        StyleKey::GaugeTitleColor => "gauge_title_color"@,
        StyleKey::GaugeTitleFont => "gauge_title_font"@,
        StyleKey::GaugeTitleFontSize => "gauge_title_font_size"@,
        StyleKey::GaugeTitleOffsetH => "gauge_title_offset_h"@,
        StyleKey::GaugeTitleOffsetV => "gauge_title_offset_v"@,
        StyleKey::GaugeTitleEnabled => "gauge_title_enabled"@,
        StyleKey::GaugeUnitColor => "gauge_unit_color"@,
        StyleKey::GaugeUnitFont => "gauge_unit_font"@,
        StyleKey::GaugeUnitFontSize => "gauge_unit_font_size"@,
        StyleKey::GaugeUnitOffsetH => "gauge_unit_offset_h"@,
        StyleKey::GaugeUnitOffsetV => "gauge_unit_offset_v"@,
        StyleKey::GaugeUnitEnabled => "gauge_unit_enabled"@,
        StyleKey::GaugeNormalZoneColor => "gauge_normal_zone_color"@,
        StyleKey::GaugeNormalZoneWidth => "gauge_normal_zone_width"@,
        StyleKey::GaugeNormalZoneEnabled => "gauge_normal_zone_enabled"@,
        StyleKey::GaugeWarningZoneColor => "gauge_warning_zone_color"@,
        StyleKey::GaugeWarningZoneWidth => "gauge_warning_zone_width"@,
        StyleKey::GaugeWarningZoneEnabled => "gauge_warning_zone_enabled"@,
        StyleKey::GaugeCriticalZoneColor => "gauge_critical_zone_color"@,
        StyleKey::GaugeCriticalZoneWidth => "gauge_critical_zone_width"@,
        StyleKey::GaugeCriticalZoneEnabled => "gauge_critical_zone_enabled"@,
        StyleKey::GaugeInactiveZoneColor => "gauge_inactive_zone_color"@,
        StyleKey::GaugeInactiveZoneWidth => "gauge_inactive_zone_width"@,
        StyleKey::GaugeInactiveZoneEnabled => "gauge_inactive_zone_enabled"@,
        StyleKey::BarBackgroundColor => "bar_background_color"@,
        StyleKey::BarBackgroundEnabled => "bar_background_enabled"@,
        StyleKey::BarBorderColor => "bar_border_color"@,
        StyleKey::BarBorderEnabled => "bar_border_enabled"@,
        StyleKey::BarBorderWidth => "bar_border_width"@,
        StyleKey::BarCornerRadius => "bar_corner_radius"@,
        StyleKey::BarEmptyColor => "bar_empty_color"@,
        StyleKey::BarNormalColor => "bar_normal_color"@,
        StyleKey::BarWarningColor => "bar_warning_color"@,
        StyleKey::BarCriticalColor => "bar_critical_color"@,
        StyleKey::BarMarksColor => "bar_marks_color"@,
        StyleKey::BarMarksWidth => "bar_marks_width"@,
        StyleKey::BarMarksThickness => "bar_marks_thickness"@,
        StyleKey::BarMarkLabelsColor => "bar_mark_labels_color"@,
        StyleKey::BarSegmentCount => "bar_segment_count"@,
        StyleKey::BarSegmentGap => "bar_segment_gap"@,
        StyleKey::CompassMajorMarkColor => "compass_major_mark_color"@,
        StyleKey::CompassMinorMarkColor => "compass_minor_mark_color"@,
        StyleKey::CompassLabelColor => "compass_label_color"@,
        StyleKey::CompassLabelFont => "compass_label_font"@,
        StyleKey::CompassLabelFontSize => "compass_label_font_size"@,
        StyleKey::CompassArrowColor => "compass_arrow_color"@,
        StyleKey::CompassCenterLineColor => "compass_center_line_color"@,
        StyleKey::CompassHeadingColor => "compass_heading_color"@,
        StyleKey::CompassHdopExcellentColor => "compass_hdop_excellent_color"@,
        StyleKey::CompassHdopGoodColor => "compass_hdop_good_color"@,
        StyleKey::CompassHdopModerateColor => "compass_hdop_moderate_color"@,
        StyleKey::CompassHdopPoorColor => "compass_hdop_poor_color"@,
        StyleKey::PitchSkyColor => "pitch_sky_color"@,
        StyleKey::PitchGroundColor => "pitch_ground_color"@,
        StyleKey::PitchAboveHorizonLabelColor => "pitch_above_horizon_label_color"@,
        StyleKey::PitchBelowHorizonLabelColor => "pitch_below_horizon_label_color"@,
        StyleKey::PitchBorderColor => "pitch_border_color"@,
        StyleKey::PitchBorderWidth => "pitch_border_width"@,
        StyleKey::PitchLabelFont => "pitch_label_font"@,
        StyleKey::PitchLabelFontSize => "pitch_label_font_size"@,
        StyleKey::RollIndicatorColor => "roll_indicator_color"@,
        StyleKey::RollScaleColor => "roll_scale_color"@,
        StyleKey::RollScaleLabelFont => "roll_scale_label_font"@,
        StyleKey::RollScaleLabelFontSize => "roll_scale_label_font_size"@,
        StyleKey::TextPrimaryColor => "text_primary_color"@,
        StyleKey::TextSecondaryColor => "text_secondary_color"@,
        StyleKey::TextAccentColor => "text_accent_color"@,
        StyleKey::TextWarningColor => "text_warning_color"@,
        StyleKey::TextErrorColor => "text_error_color"@,
        StyleKey::TextPrimaryFont => "text_primary_font"@,
        StyleKey::TextPrimaryFontSize => "text_primary_font_size"@,
        StyleKey::TextSecondaryFont => "text_secondary_font"@,
        StyleKey::TextSecondaryFontSize => "text_secondary_font_size"@,
        StyleKey::TextMonospaceFont => "text_monospace_font"@,
        StyleKey::TextMonospaceFontSize => "text_monospace_font_size"@,
        StyleKey::TextSmallFont => "text_small_font"@,
        StyleKey::TextSmallFontSize => "text_small_font_size"@,
        StyleKey::TextLineSpacing => "text_line_spacing"@,
        StyleKey::TextLetterSpacing => "text_letter_spacing"@,
        StyleKey::TerminalBackgroundColor => "terminal_background_color"@,
        StyleKey::TerminalBackgroundEnabled => "terminal_background_enabled"@,
        StyleKey::TerminalBorderColor => "terminal_border_color"@,
        StyleKey::TerminalBorderEnabled => "terminal_border_enabled"@,
        StyleKey::TerminalBorderWidth => "terminal_border_width"@,
        StyleKey::TerminalTextColor => "terminal_text_color"@,
        StyleKey::TerminalPadding => "terminal_padding"@,
        StyleKey::DigitalDisplayFont => "digital_display_font"@,
        StyleKey::DigitalDisplayFontSize => "digital_display_font_size"@,
        StyleKey::DigitalDisplayScale => "digital_display_scale"@,
        StyleKey::DigitalDisplayActiveColor => "digital_display_active_color"@,
        StyleKey::DigitalDisplayInactiveColor => "digital_display_inactive_color"@,
        StyleKey::DigitalDisplayInactiveColorBlending => "digital_display_inactive_color_blending"@,
        StyleKey::DigitalDisplayBackgroundColor => "digital_display_background_color"@,
        StyleKey::DigitalDisplayBackgroundEnabled => "digital_display_background_enabled"@,
        StyleKey::DigitalDisplayBorderEnabled => "digital_display_border_enabled"@,
        StyleKey::DigitalDisplayBorderColor => "digital_display_border_color"@,
        StyleKey::DigitalDisplayBorderWidth => "digital_display_border_width"@,
        StyleKey::DigitalDisplayBorderRadius => "digital_display_border_radius"@,
        StyleKey::DigitalDisplayFontItalic => "digital_display_font_italic"@,
        StyleKey::DigitalDisplay14SegFont => "digital_display_14seg_font"@,
        StyleKey::DigitalDisplay14SegItalic => "digital_display_14seg_italic"@,
        StyleKey::IndicatorNormalColor => "indicator_normal_color"@,
        StyleKey::IndicatorWarningColor => "indicator_warning_color"@,
        StyleKey::IndicatorCriticalColor => "indicator_critical_color"@,
        StyleKey::IndicatorOffColor => "indicator_off_color"@,
        StyleKey::IndicatorBlinkSpeed => "indicator_blink_speed"@,
        StyleKey::IndicatorGlowEnabled => "indicator_glow_enabled"@,
        StyleKey::IndicatorGlowRadius => "indicator_glow_radius"@,
        StyleKey::IndicatorSize => "indicator_size"@,
        StyleKey::AnimationNeedleSpeed => "animation_needle_speed"@,
        StyleKey::AnimationBarSpeed => "animation_bar_speed"@,
        StyleKey::AnimationSmoothEnabled => "animation_smooth_enabled"@,
        StyleKey::AlertFontPath => "alert_font_path"@,
        StyleKey::AlertFontSize => "alert_font_size"@,
        StyleKey::AlertWarningColor => "alert_warning_color"@,
        StyleKey::AlertCriticalColor => "alert_critical_color"@,
        StyleKey::AlertBackgroundColor => "alert_background_color"@,
        StyleKey::AlertBorderColor => "alert_border_color"@,
        StyleKey::AlertBorderWidth => "alert_border_width"@,
        StyleKey::AlertMargin => "alert_margin"@,
        StyleKey::AlertCornerRadius => "alert_corner_radius"@,
        StyleKey::AlertSoundPath => "alert_sound_path"@,
    }
}

/// The kind of value a key holds.
pub open spec fn key_kind(k: StyleKey) -> ValueKind {
    match k {
        StyleKey::GlobalContrast => ValueKind::Float,
        StyleKey::GlobalBackgroundColor => ValueKind::Color,
        StyleKey::GlobalFontPath => ValueKind::String,
        StyleKey::GlobalFontSize => ValueKind::Integer,
        StyleKey::PageButtonLabelFont => ValueKind::String,
        StyleKey::PageButtonLabelFontSize => ValueKind::Integer,
        StyleKey::PageButtonLabelOrientation => ValueKind::String,
        StyleKey::PageButtonLabelColor => ValueKind::Color,
        StyleKey::PageButtonPressedFrameColor => ValueKind::Color,
        StyleKey::PageButtonPressedFrameWidth => ValueKind::Float,
        StyleKey::PageButtonPressedFramePadding => ValueKind::Float,
        StyleKey::PageStatusFont => ValueKind::String,
        StyleKey::PageStatusFontSize => ValueKind::Integer,
        StyleKey::PageStatusColor => ValueKind::Color,
        StyleKey::GaugeBackgroundColor => ValueKind::Color,
        StyleKey::GaugeBorderColor => ValueKind::Color,
        StyleKey::GaugeBorderWidth => ValueKind::Float,
        StyleKey::GaugeRadius => ValueKind::Float,
        StyleKey::GaugeNeedleColor => ValueKind::Color,
        StyleKey::GaugeNeedleWidth => ValueKind::Float,
        StyleKey::GaugeNeedleLength => ValueKind::Float,
        StyleKey::GaugeNeedleTipWidth => ValueKind::Float,
        StyleKey::GaugeNeedleCenterColor => ValueKind::Color,
        StyleKey::GaugeNeedleCenterRadius => ValueKind::Float,
        StyleKey::GaugeNeedleShadowEnabled => ValueKind::Boolean,
        StyleKey::GaugeNeedleShadowColor => ValueKind::Color,
        StyleKey::GaugeNeedleGlowEnabled => ValueKind::Boolean,
        StyleKey::GaugeMajorMarkColor => ValueKind::Color,
        StyleKey::GaugeMajorMarkWidth => ValueKind::Float,
        StyleKey::GaugeMajorMarkLength => ValueKind::Float,
        StyleKey::GaugeMajorMarkOffset => ValueKind::Float,
        StyleKey::GaugeMajorMarkEnabled => ValueKind::Boolean,
        StyleKey::GaugeMajorMarkCount => ValueKind::Integer,
        StyleKey::GaugeMinorMarkColor => ValueKind::Color,
        StyleKey::GaugeMinorMarkWidth => ValueKind::Float,
        StyleKey::GaugeMinorMarkLength => ValueKind::Float,
        StyleKey::GaugeMinorMarkOffset => ValueKind::Float,
        StyleKey::GaugeMinorMarkEnabled => ValueKind::Boolean,
        StyleKey::GaugeMinorMarkCount => ValueKind::Integer,
        StyleKey::GaugeLabelColor => ValueKind::Color,
        StyleKey::GaugeLabelFont => ValueKind::String,
        StyleKey::GaugeLabelFontSize => ValueKind::Integer,
        StyleKey::GaugeLabelOffset => ValueKind::Float,
        StyleKey::GaugeLabelEnabled => ValueKind::Boolean,
        StyleKey::GaugeTitleColor => ValueKind::Color,
        StyleKey::GaugeTitleFont => ValueKind::String,
        StyleKey::GaugeTitleFontSize => ValueKind::Integer,
        StyleKey::GaugeTitleOffsetH => ValueKind::Float,
        StyleKey::GaugeTitleOffsetV => ValueKind::Float,
        StyleKey::GaugeTitleEnabled => ValueKind::Boolean,
        StyleKey::GaugeUnitColor => ValueKind::Color,
        StyleKey::GaugeUnitFont => ValueKind::String,
        StyleKey::GaugeUnitFontSize => ValueKind::Integer,
        StyleKey::GaugeUnitOffsetH => ValueKind::Float,
        StyleKey::GaugeUnitOffsetV => ValueKind::Float,
        StyleKey::GaugeUnitEnabled => ValueKind::Boolean,
        StyleKey::GaugeNormalZoneColor => ValueKind::Color,
        StyleKey::GaugeNormalZoneWidth => ValueKind::Float,
        StyleKey::GaugeNormalZoneEnabled => ValueKind::Boolean,
        StyleKey::GaugeWarningZoneColor => ValueKind::Color,
        StyleKey::GaugeWarningZoneWidth => ValueKind::Float,
        StyleKey::GaugeWarningZoneEnabled => ValueKind::Boolean,
        StyleKey::GaugeCriticalZoneColor => ValueKind::Color,
        StyleKey::GaugeCriticalZoneWidth => ValueKind::Float,
        StyleKey::GaugeCriticalZoneEnabled => ValueKind::Boolean,
        StyleKey::GaugeInactiveZoneColor => ValueKind::Color,
        StyleKey::GaugeInactiveZoneWidth => ValueKind::Float,
        StyleKey::GaugeInactiveZoneEnabled => ValueKind::Boolean,
        StyleKey::BarBackgroundColor => ValueKind::Color,
        StyleKey::BarBackgroundEnabled => ValueKind::Boolean,
        StyleKey::BarBorderColor => ValueKind::Color,
        StyleKey::BarBorderEnabled => ValueKind::Boolean,
        StyleKey::BarBorderWidth => ValueKind::Float,
        StyleKey::BarCornerRadius => ValueKind::Float,
        StyleKey::BarEmptyColor => ValueKind::Color,
        StyleKey::BarNormalColor => ValueKind::Color,
        StyleKey::BarWarningColor => ValueKind::Color,
        StyleKey::BarCriticalColor => ValueKind::Color,
        StyleKey::BarMarksColor => ValueKind::Color,
        StyleKey::BarMarksWidth => ValueKind::Float,
        StyleKey::BarMarksThickness => ValueKind::Float,
        StyleKey::BarMarkLabelsColor => ValueKind::Color,
        StyleKey::BarSegmentCount => ValueKind::Integer,
        StyleKey::BarSegmentGap => ValueKind::Float,
        StyleKey::CompassMajorMarkColor => ValueKind::Color,
        StyleKey::CompassMinorMarkColor => ValueKind::Color,
        StyleKey::CompassLabelColor => ValueKind::Color,
        StyleKey::CompassLabelFont => ValueKind::String,
        StyleKey::CompassLabelFontSize => ValueKind::Integer,
        StyleKey::CompassArrowColor => ValueKind::Color,
        StyleKey::CompassCenterLineColor => ValueKind::Color,
        StyleKey::CompassHeadingColor => ValueKind::Color,
        StyleKey::CompassHdopExcellentColor => ValueKind::Color,
        StyleKey::CompassHdopGoodColor => ValueKind::Color,
        StyleKey::CompassHdopModerateColor => ValueKind::Color,
        StyleKey::CompassHdopPoorColor => ValueKind::Color,
        StyleKey::PitchSkyColor => ValueKind::Color,
        StyleKey::PitchGroundColor => ValueKind::Color,
        StyleKey::PitchAboveHorizonLabelColor => ValueKind::Color,
        StyleKey::PitchBelowHorizonLabelColor => ValueKind::Color,
        StyleKey::PitchBorderColor => ValueKind::Color,
        StyleKey::PitchBorderWidth => ValueKind::Float,
        StyleKey::PitchLabelFont => ValueKind::String,
        StyleKey::PitchLabelFontSize => ValueKind::Integer,
        StyleKey::RollIndicatorColor => ValueKind::Color,
        StyleKey::RollScaleColor => ValueKind::Color,
        StyleKey::RollScaleLabelFont => ValueKind::String,
        StyleKey::RollScaleLabelFontSize => ValueKind::Integer,
        StyleKey::TextPrimaryColor => ValueKind::Color,
        StyleKey::TextSecondaryColor => ValueKind::Color,
        StyleKey::TextAccentColor => ValueKind::Color,
        StyleKey::TextWarningColor => ValueKind::Color,
        StyleKey::TextErrorColor => ValueKind::Color,
        StyleKey::TextPrimaryFont => ValueKind::String,
        StyleKey::TextPrimaryFontSize => ValueKind::Integer,
        StyleKey::TextSecondaryFont => ValueKind::String,
        StyleKey::TextSecondaryFontSize => ValueKind::Integer,
        StyleKey::TextMonospaceFont => ValueKind::String,
        StyleKey::TextMonospaceFontSize => ValueKind::Integer,
        StyleKey::TextSmallFont => ValueKind::String,
        StyleKey::TextSmallFontSize => ValueKind::Integer,
        StyleKey::TextLineSpacing => ValueKind::Float,
        StyleKey::TextLetterSpacing => ValueKind::Float,
        StyleKey::TerminalBackgroundColor => ValueKind::Color,
        StyleKey::TerminalBackgroundEnabled => ValueKind::Boolean,
        StyleKey::TerminalBorderColor => ValueKind::Color,
        StyleKey::TerminalBorderEnabled => ValueKind::Boolean,
        StyleKey::TerminalBorderWidth => ValueKind::Float,
        StyleKey::TerminalTextColor => ValueKind::Color,
        StyleKey::TerminalPadding => ValueKind::Float,
        StyleKey::DigitalDisplayFont => ValueKind::String,
        StyleKey::DigitalDisplayFontSize => ValueKind::Integer,
        StyleKey::DigitalDisplayScale => ValueKind::Float,
        StyleKey::DigitalDisplayActiveColor => ValueKind::Color,
        StyleKey::DigitalDisplayInactiveColor => ValueKind::Color,
        StyleKey::DigitalDisplayInactiveColorBlending => ValueKind::Float,
        StyleKey::DigitalDisplayBackgroundColor => ValueKind::Color,
        StyleKey::DigitalDisplayBackgroundEnabled => ValueKind::Boolean,
        StyleKey::DigitalDisplayBorderEnabled => ValueKind::Boolean,
        StyleKey::DigitalDisplayBorderColor => ValueKind::Color,
        StyleKey::DigitalDisplayBorderWidth => ValueKind::Float,
        StyleKey::DigitalDisplayBorderRadius => ValueKind::Float,
        StyleKey::DigitalDisplayFontItalic => ValueKind::String,
        StyleKey::DigitalDisplay14SegFont => ValueKind::String,
        StyleKey::DigitalDisplay14SegItalic => ValueKind::String,
        StyleKey::IndicatorNormalColor => ValueKind::Color,
        StyleKey::IndicatorWarningColor => ValueKind::Color,
        StyleKey::IndicatorCriticalColor => ValueKind::Color,
        StyleKey::IndicatorOffColor => ValueKind::Color,
        StyleKey::IndicatorBlinkSpeed => ValueKind::Float,
        StyleKey::IndicatorGlowEnabled => ValueKind::Boolean,
        StyleKey::IndicatorGlowRadius => ValueKind::Float,
        StyleKey::IndicatorSize => ValueKind::Float,
        StyleKey::AnimationNeedleSpeed => ValueKind::Float,
        StyleKey::AnimationBarSpeed => ValueKind::Float,
        StyleKey::AnimationSmoothEnabled => ValueKind::Boolean,
        StyleKey::AlertFontPath => ValueKind::String,
        StyleKey::AlertFontSize => ValueKind::Integer,
        StyleKey::AlertWarningColor => ValueKind::Color,
        StyleKey::AlertCriticalColor => ValueKind::Color,
        StyleKey::AlertBackgroundColor => ValueKind::Color,
        StyleKey::AlertBorderColor => ValueKind::Color,
        StyleKey::AlertBorderWidth => ValueKind::Float,
        StyleKey::AlertMargin => ValueKind::Float,
        StyleKey::AlertCornerRadius => ValueKind::Float,
        StyleKey::AlertSoundPath => ValueKind::String,
    }
}

/// Every key, in declaration order.
/// Number of style keys.
pub const STYLE_KEY_COUNT: usize = 166;

/// The key at position `i` of the declaration order.
pub open spec fn key_at(i: int) -> StyleKey {
    if i == 0 {
        StyleKey::GlobalContrast
    } else if i == 1 {
        StyleKey::GlobalBackgroundColor
    } else if i == 2 {
        StyleKey::GlobalFontPath
    } else if i == 3 {
        StyleKey::GlobalFontSize
    } else if i == 4 {
        StyleKey::PageButtonLabelFont
    } else if i == 5 {
        StyleKey::PageButtonLabelFontSize
    } else if i == 6 {
        StyleKey::PageButtonLabelOrientation
    } else if i == 7 {
        StyleKey::PageButtonLabelColor
    } else if i == 8 {
        StyleKey::PageButtonPressedFrameColor
    } else if i == 9 {
        StyleKey::PageButtonPressedFrameWidth
    } else if i == 10 {
        StyleKey::PageButtonPressedFramePadding
    } else if i == 11 {
        StyleKey::PageStatusFont
    } else if i == 12 {
        StyleKey::PageStatusFontSize
    } else if i == 13 {
        StyleKey::PageStatusColor
    } else if i == 14 {
        StyleKey::GaugeBackgroundColor
    } else if i == 15 {
        StyleKey::GaugeBorderColor
    } else if i == 16 {
        StyleKey::GaugeBorderWidth
    } else if i == 17 {
        StyleKey::GaugeRadius
    } else if i == 18 {
        StyleKey::GaugeNeedleColor
    } else if i == 19 {
        StyleKey::GaugeNeedleWidth
    } else if i == 20 {
        StyleKey::GaugeNeedleLength
    } else if i == 21 {
        StyleKey::GaugeNeedleTipWidth
    } else if i == 22 {
        StyleKey::GaugeNeedleCenterColor
    } else if i == 23 {
        StyleKey::GaugeNeedleCenterRadius
    } else if i == 24 {
        StyleKey::GaugeNeedleShadowEnabled
    } else if i == 25 {
        StyleKey::GaugeNeedleShadowColor
    } else if i == 26 {
        StyleKey::GaugeNeedleGlowEnabled
    } else if i == 27 {
        StyleKey::GaugeMajorMarkColor
    } else if i == 28 {
        StyleKey::GaugeMajorMarkWidth
    } else if i == 29 {
        StyleKey::GaugeMajorMarkLength
    } else if i == 30 {
        StyleKey::GaugeMajorMarkOffset
    } else if i == 31 {
        StyleKey::GaugeMajorMarkEnabled
    } else if i == 32 {
        StyleKey::GaugeMajorMarkCount
    } else if i == 33 {
        StyleKey::GaugeMinorMarkColor
    } else if i == 34 {
        StyleKey::GaugeMinorMarkWidth
    } else if i == 35 {
        StyleKey::GaugeMinorMarkLength
    } else if i == 36 {
        StyleKey::GaugeMinorMarkOffset
    } else if i == 37 {
        StyleKey::GaugeMinorMarkEnabled
    } else if i == 38 {
        StyleKey::GaugeMinorMarkCount
    } else if i == 39 {
        StyleKey::GaugeLabelColor
    } else if i == 40 {
        StyleKey::GaugeLabelFont
    } else if i == 41 {
        StyleKey::GaugeLabelFontSize
    } else if i == 42 {
        StyleKey::GaugeLabelOffset
    } else if i == 43 {
        StyleKey::GaugeLabelEnabled
    } else if i == 44 {
        StyleKey::GaugeTitleColor
    } else if i == 45 {
        StyleKey::GaugeTitleFont
    } else if i == 46 {
        StyleKey::GaugeTitleFontSize
    } else if i == 47 {
        StyleKey::GaugeTitleOffsetH
    } else if i == 48 {
        StyleKey::GaugeTitleOffsetV
    } else if i == 49 {
        StyleKey::GaugeTitleEnabled
    } else if i == 50 {
        StyleKey::GaugeUnitColor
    } else if i == 51 {
        StyleKey::GaugeUnitFont
    } else if i == 52 {
        StyleKey::GaugeUnitFontSize
    } else if i == 53 {
        StyleKey::GaugeUnitOffsetH
    } else if i == 54 {
        StyleKey::GaugeUnitOffsetV
    } else if i == 55 {
        StyleKey::GaugeUnitEnabled
    } else if i == 56 {
        StyleKey::GaugeNormalZoneColor
    } else if i == 57 {
        StyleKey::GaugeNormalZoneWidth
    } else if i == 58 {
        StyleKey::GaugeNormalZoneEnabled
    } else if i == 59 {
        StyleKey::GaugeWarningZoneColor
    } else if i == 60 {
        StyleKey::GaugeWarningZoneWidth
    } else if i == 61 {
        StyleKey::GaugeWarningZoneEnabled
    } else if i == 62 {
        StyleKey::GaugeCriticalZoneColor
    } else if i == 63 {
        StyleKey::GaugeCriticalZoneWidth
    } else if i == 64 {
        StyleKey::GaugeCriticalZoneEnabled
    } else if i == 65 {
        StyleKey::GaugeInactiveZoneColor
    } else if i == 66 {
        StyleKey::GaugeInactiveZoneWidth
    } else if i == 67 {
        StyleKey::GaugeInactiveZoneEnabled
    } else if i == 68 {
        StyleKey::BarBackgroundColor
    } else if i == 69 {
        StyleKey::BarBackgroundEnabled
    } else if i == 70 {
        StyleKey::BarBorderColor
    } else if i == 71 {
        StyleKey::BarBorderEnabled
    } else if i == 72 {
        StyleKey::BarBorderWidth
    } else if i == 73 {
        StyleKey::BarCornerRadius
    } else if i == 74 {
        StyleKey::BarEmptyColor
    } else if i == 75 {
        StyleKey::BarNormalColor
    } else if i == 76 {
        StyleKey::BarWarningColor
    } else if i == 77 {
        StyleKey::BarCriticalColor
    } else if i == 78 {
        StyleKey::BarMarksColor
    } else if i == 79 {
        StyleKey::BarMarksWidth
    } else if i == 80 {
        StyleKey::BarMarksThickness
    } else if i == 81 {
        StyleKey::BarMarkLabelsColor
    } else if i == 82 {
        StyleKey::BarSegmentCount
    } else if i == 83 {
        StyleKey::BarSegmentGap
    } else if i == 84 {
        StyleKey::CompassMajorMarkColor
    } else if i == 85 {
        StyleKey::CompassMinorMarkColor
    } else if i == 86 {
        StyleKey::CompassLabelColor
    } else if i == 87 {
        StyleKey::CompassLabelFont
    } else if i == 88 {
        StyleKey::CompassLabelFontSize
    } else if i == 89 {
        StyleKey::CompassArrowColor
    } else if i == 90 {
        StyleKey::CompassCenterLineColor
    } else if i == 91 {
        StyleKey::CompassHeadingColor
    } else if i == 92 {
        StyleKey::CompassHdopExcellentColor
    } else if i == 93 {
        StyleKey::CompassHdopGoodColor
    } else if i == 94 {
        StyleKey::CompassHdopModerateColor
    } else if i == 95 {
        StyleKey::CompassHdopPoorColor
    } else if i == 96 {
        StyleKey::PitchSkyColor
    } else if i == 97 {
        StyleKey::PitchGroundColor
    } else if i == 98 {
        StyleKey::PitchAboveHorizonLabelColor
    } else if i == 99 {
        StyleKey::PitchBelowHorizonLabelColor
    } else if i == 100 {
        StyleKey::PitchBorderColor
    } else if i == 101 {
        StyleKey::PitchBorderWidth
    } else if i == 102 {
        StyleKey::PitchLabelFont
    } else if i == 103 {
        StyleKey::PitchLabelFontSize
    } else if i == 104 {
        StyleKey::RollIndicatorColor
    } else if i == 105 {
        StyleKey::RollScaleColor
    } else if i == 106 {
        StyleKey::RollScaleLabelFont
    } else if i == 107 {
        StyleKey::RollScaleLabelFontSize
    } else if i == 108 {
        StyleKey::TextPrimaryColor
    } else if i == 109 {
        StyleKey::TextSecondaryColor
    } else if i == 110 {
        StyleKey::TextAccentColor
    } else if i == 111 {
        StyleKey::TextWarningColor
    } else if i == 112 {
        StyleKey::TextErrorColor
    } else if i == 113 {
        StyleKey::TextPrimaryFont
    } else if i == 114 {
        StyleKey::TextPrimaryFontSize
    } else if i == 115 {
        StyleKey::TextSecondaryFont
    } else if i == 116 {
        StyleKey::TextSecondaryFontSize
    } else if i == 117 {
        StyleKey::TextMonospaceFont
    } else if i == 118 {
        StyleKey::TextMonospaceFontSize
    } else if i == 119 {
        StyleKey::TextSmallFont
    } else if i == 120 {
        StyleKey::TextSmallFontSize
    } else if i == 121 {
        StyleKey::TextLineSpacing
    } else if i == 122 {
        StyleKey::TextLetterSpacing
    } else if i == 123 {
        StyleKey::TerminalBackgroundColor
    } else if i == 124 {
        StyleKey::TerminalBackgroundEnabled
    } else if i == 125 {
        StyleKey::TerminalBorderColor
    } else if i == 126 {
        StyleKey::TerminalBorderEnabled
    } else if i == 127 {
        StyleKey::TerminalBorderWidth
    } else if i == 128 {
        StyleKey::TerminalTextColor
    } else if i == 129 {
        StyleKey::TerminalPadding
    } else if i == 130 {
        StyleKey::DigitalDisplayFont
    } else if i == 131 {
        StyleKey::DigitalDisplayFontSize
    } else if i == 132 {
        StyleKey::DigitalDisplayScale
    } else if i == 133 {
        StyleKey::DigitalDisplayActiveColor
    } else if i == 134 {
        StyleKey::DigitalDisplayInactiveColor
    } else if i == 135 {
        StyleKey::DigitalDisplayInactiveColorBlending
    } else if i == 136 {
        StyleKey::DigitalDisplayBackgroundColor
    } else if i == 137 {
        StyleKey::DigitalDisplayBackgroundEnabled
    } else if i == 138 {
        StyleKey::DigitalDisplayBorderEnabled
    } else if i == 139 {
        StyleKey::DigitalDisplayBorderColor
    } else if i == 140 {
        StyleKey::DigitalDisplayBorderWidth
    } else if i == 141 {
        StyleKey::DigitalDisplayBorderRadius
    } else if i == 142 {
        StyleKey::DigitalDisplayFontItalic
    } else if i == 143 {
        StyleKey::DigitalDisplay14SegFont
    } else if i == 144 {
        StyleKey::DigitalDisplay14SegItalic
    } else if i == 145 {
        StyleKey::IndicatorNormalColor
    } else if i == 146 {
        StyleKey::IndicatorWarningColor
    } else if i == 147 {
        StyleKey::IndicatorCriticalColor
    } else if i == 148 {
        StyleKey::IndicatorOffColor
    } else if i == 149 {
        StyleKey::IndicatorBlinkSpeed
    } else if i == 150 {
        StyleKey::IndicatorGlowEnabled
    } else if i == 151 {
        StyleKey::IndicatorGlowRadius
    } else if i == 152 {
        StyleKey::IndicatorSize
    } else if i == 153 {
        StyleKey::AnimationNeedleSpeed
    } else if i == 154 {
        StyleKey::AnimationBarSpeed
    } else if i == 155 {
        StyleKey::AnimationSmoothEnabled
    } else if i == 156 {
        StyleKey::AlertFontPath
    } else if i == 157 {
        StyleKey::AlertFontSize
    } else if i == 158 {
        StyleKey::AlertWarningColor
    } else if i == 159 {
        StyleKey::AlertCriticalColor
    } else if i == 160 {
        StyleKey::AlertBackgroundColor
    } else if i == 161 {
        StyleKey::AlertBorderColor
    } else if i == 162 {
        StyleKey::AlertBorderWidth
    } else if i == 163 {
        StyleKey::AlertMargin
    } else if i == 164 {
        StyleKey::AlertCornerRadius
    } else {
        StyleKey::AlertSoundPath
    }
}

/// Every key has a position in the declaration order.
pub proof fn lemma_every_key_listed(k: StyleKey)
    ensures
        exists|i: int| 0 <= i < STYLE_KEY_COUNT && #[trigger] key_at(i) == k,
{
    match k {
        StyleKey::GlobalContrast => assert(key_at(0) == k),
        StyleKey::GlobalBackgroundColor => assert(key_at(1) == k),
        StyleKey::GlobalFontPath => assert(key_at(2) == k),
        StyleKey::GlobalFontSize => assert(key_at(3) == k),
        StyleKey::PageButtonLabelFont => assert(key_at(4) == k),
        StyleKey::PageButtonLabelFontSize => assert(key_at(5) == k),
        StyleKey::PageButtonLabelOrientation => assert(key_at(6) == k),
        StyleKey::PageButtonLabelColor => assert(key_at(7) == k),
        StyleKey::PageButtonPressedFrameColor => assert(key_at(8) == k),
        StyleKey::PageButtonPressedFrameWidth => assert(key_at(9) == k),
        StyleKey::PageButtonPressedFramePadding => assert(key_at(10) == k),
        StyleKey::PageStatusFont => assert(key_at(11) == k),
        StyleKey::PageStatusFontSize => assert(key_at(12) == k),
        StyleKey::PageStatusColor => assert(key_at(13) == k),
        StyleKey::GaugeBackgroundColor => assert(key_at(14) == k),
        StyleKey::GaugeBorderColor => assert(key_at(15) == k),
        StyleKey::GaugeBorderWidth => assert(key_at(16) == k),
        StyleKey::GaugeRadius => assert(key_at(17) == k),
        StyleKey::GaugeNeedleColor => assert(key_at(18) == k),
        StyleKey::GaugeNeedleWidth => assert(key_at(19) == k),
        StyleKey::GaugeNeedleLength => assert(key_at(20) == k),
        StyleKey::GaugeNeedleTipWidth => assert(key_at(21) == k),
        StyleKey::GaugeNeedleCenterColor => assert(key_at(22) == k),
        StyleKey::GaugeNeedleCenterRadius => assert(key_at(23) == k),
        StyleKey::GaugeNeedleShadowEnabled => assert(key_at(24) == k),
        StyleKey::GaugeNeedleShadowColor => assert(key_at(25) == k),
        StyleKey::GaugeNeedleGlowEnabled => assert(key_at(26) == k),
        StyleKey::GaugeMajorMarkColor => assert(key_at(27) == k),
        StyleKey::GaugeMajorMarkWidth => assert(key_at(28) == k),
        StyleKey::GaugeMajorMarkLength => assert(key_at(29) == k),
        StyleKey::GaugeMajorMarkOffset => assert(key_at(30) == k),
        StyleKey::GaugeMajorMarkEnabled => assert(key_at(31) == k),
        StyleKey::GaugeMajorMarkCount => assert(key_at(32) == k),
        StyleKey::GaugeMinorMarkColor => assert(key_at(33) == k),
        StyleKey::GaugeMinorMarkWidth => assert(key_at(34) == k),
        StyleKey::GaugeMinorMarkLength => assert(key_at(35) == k),
        StyleKey::GaugeMinorMarkOffset => assert(key_at(36) == k),
        StyleKey::GaugeMinorMarkEnabled => assert(key_at(37) == k),
        StyleKey::GaugeMinorMarkCount => assert(key_at(38) == k),
        StyleKey::GaugeLabelColor => assert(key_at(39) == k),
        StyleKey::GaugeLabelFont => assert(key_at(40) == k),
        StyleKey::GaugeLabelFontSize => assert(key_at(41) == k),
        StyleKey::GaugeLabelOffset => assert(key_at(42) == k),
        StyleKey::GaugeLabelEnabled => assert(key_at(43) == k),
        StyleKey::GaugeTitleColor => assert(key_at(44) == k),
        StyleKey::GaugeTitleFont => assert(key_at(45) == k),
        StyleKey::GaugeTitleFontSize => assert(key_at(46) == k),
        StyleKey::GaugeTitleOffsetH => assert(key_at(47) == k),
        StyleKey::GaugeTitleOffsetV => assert(key_at(48) == k),
        StyleKey::GaugeTitleEnabled => assert(key_at(49) == k),
        StyleKey::GaugeUnitColor => assert(key_at(50) == k),
        StyleKey::GaugeUnitFont => assert(key_at(51) == k),
        StyleKey::GaugeUnitFontSize => assert(key_at(52) == k),
        StyleKey::GaugeUnitOffsetH => assert(key_at(53) == k),
        StyleKey::GaugeUnitOffsetV => assert(key_at(54) == k),
        StyleKey::GaugeUnitEnabled => assert(key_at(55) == k),
        StyleKey::GaugeNormalZoneColor => assert(key_at(56) == k),
        StyleKey::GaugeNormalZoneWidth => assert(key_at(57) == k),
        StyleKey::GaugeNormalZoneEnabled => assert(key_at(58) == k),
        StyleKey::GaugeWarningZoneColor => assert(key_at(59) == k),
        StyleKey::GaugeWarningZoneWidth => assert(key_at(60) == k),
        StyleKey::GaugeWarningZoneEnabled => assert(key_at(61) == k),
        StyleKey::GaugeCriticalZoneColor => assert(key_at(62) == k),
        StyleKey::GaugeCriticalZoneWidth => assert(key_at(63) == k),
        StyleKey::GaugeCriticalZoneEnabled => assert(key_at(64) == k),
        StyleKey::GaugeInactiveZoneColor => assert(key_at(65) == k),
        StyleKey::GaugeInactiveZoneWidth => assert(key_at(66) == k),
        StyleKey::GaugeInactiveZoneEnabled => assert(key_at(67) == k),
        StyleKey::BarBackgroundColor => assert(key_at(68) == k),
        StyleKey::BarBackgroundEnabled => assert(key_at(69) == k),
        StyleKey::BarBorderColor => assert(key_at(70) == k),
        StyleKey::BarBorderEnabled => assert(key_at(71) == k),
        StyleKey::BarBorderWidth => assert(key_at(72) == k),
        StyleKey::BarCornerRadius => assert(key_at(73) == k),
        StyleKey::BarEmptyColor => assert(key_at(74) == k),
        StyleKey::BarNormalColor => assert(key_at(75) == k),
        StyleKey::BarWarningColor => assert(key_at(76) == k),
        StyleKey::BarCriticalColor => assert(key_at(77) == k),
        StyleKey::BarMarksColor => assert(key_at(78) == k),
        StyleKey::BarMarksWidth => assert(key_at(79) == k),
        StyleKey::BarMarksThickness => assert(key_at(80) == k),
        StyleKey::BarMarkLabelsColor => assert(key_at(81) == k),
        StyleKey::BarSegmentCount => assert(key_at(82) == k),
        StyleKey::BarSegmentGap => assert(key_at(83) == k),
        StyleKey::CompassMajorMarkColor => assert(key_at(84) == k),
        StyleKey::CompassMinorMarkColor => assert(key_at(85) == k),
        StyleKey::CompassLabelColor => assert(key_at(86) == k),
        StyleKey::CompassLabelFont => assert(key_at(87) == k),
        StyleKey::CompassLabelFontSize => assert(key_at(88) == k),
        StyleKey::CompassArrowColor => assert(key_at(89) == k),
        StyleKey::CompassCenterLineColor => assert(key_at(90) == k),
        StyleKey::CompassHeadingColor => assert(key_at(91) == k),
        StyleKey::CompassHdopExcellentColor => assert(key_at(92) == k),
        StyleKey::CompassHdopGoodColor => assert(key_at(93) == k),
        StyleKey::CompassHdopModerateColor => assert(key_at(94) == k),
        StyleKey::CompassHdopPoorColor => assert(key_at(95) == k),
        StyleKey::PitchSkyColor => assert(key_at(96) == k),
        StyleKey::PitchGroundColor => assert(key_at(97) == k),
        StyleKey::PitchAboveHorizonLabelColor => assert(key_at(98) == k),
        StyleKey::PitchBelowHorizonLabelColor => assert(key_at(99) == k),
        StyleKey::PitchBorderColor => assert(key_at(100) == k),
        StyleKey::PitchBorderWidth => assert(key_at(101) == k),
        StyleKey::PitchLabelFont => assert(key_at(102) == k),
        StyleKey::PitchLabelFontSize => assert(key_at(103) == k),
        StyleKey::RollIndicatorColor => assert(key_at(104) == k),
        StyleKey::RollScaleColor => assert(key_at(105) == k),
        StyleKey::RollScaleLabelFont => assert(key_at(106) == k),
        StyleKey::RollScaleLabelFontSize => assert(key_at(107) == k),
        StyleKey::TextPrimaryColor => assert(key_at(108) == k),
        StyleKey::TextSecondaryColor => assert(key_at(109) == k),
        StyleKey::TextAccentColor => assert(key_at(110) == k),
        StyleKey::TextWarningColor => assert(key_at(111) == k),
        StyleKey::TextErrorColor => assert(key_at(112) == k),
        StyleKey::TextPrimaryFont => assert(key_at(113) == k),
        StyleKey::TextPrimaryFontSize => assert(key_at(114) == k),
        StyleKey::TextSecondaryFont => assert(key_at(115) == k),
        StyleKey::TextSecondaryFontSize => assert(key_at(116) == k),
        StyleKey::TextMonospaceFont => assert(key_at(117) == k),
        StyleKey::TextMonospaceFontSize => assert(key_at(118) == k),
        StyleKey::TextSmallFont => assert(key_at(119) == k),
        StyleKey::TextSmallFontSize => assert(key_at(120) == k),
        StyleKey::TextLineSpacing => assert(key_at(121) == k),
        StyleKey::TextLetterSpacing => assert(key_at(122) == k),
        StyleKey::TerminalBackgroundColor => assert(key_at(123) == k),
        StyleKey::TerminalBackgroundEnabled => assert(key_at(124) == k),
        StyleKey::TerminalBorderColor => assert(key_at(125) == k),
        StyleKey::TerminalBorderEnabled => assert(key_at(126) == k),
        StyleKey::TerminalBorderWidth => assert(key_at(127) == k),
        StyleKey::TerminalTextColor => assert(key_at(128) == k),
        StyleKey::TerminalPadding => assert(key_at(129) == k),
        StyleKey::DigitalDisplayFont => assert(key_at(130) == k),
        StyleKey::DigitalDisplayFontSize => assert(key_at(131) == k),
        StyleKey::DigitalDisplayScale => assert(key_at(132) == k),
        StyleKey::DigitalDisplayActiveColor => assert(key_at(133) == k),
        StyleKey::DigitalDisplayInactiveColor => assert(key_at(134) == k),
        StyleKey::DigitalDisplayInactiveColorBlending => assert(key_at(135) == k),
        StyleKey::DigitalDisplayBackgroundColor => assert(key_at(136) == k),
        StyleKey::DigitalDisplayBackgroundEnabled => assert(key_at(137) == k),
        StyleKey::DigitalDisplayBorderEnabled => assert(key_at(138) == k),
        StyleKey::DigitalDisplayBorderColor => assert(key_at(139) == k),
        StyleKey::DigitalDisplayBorderWidth => assert(key_at(140) == k),
        StyleKey::DigitalDisplayBorderRadius => assert(key_at(141) == k),
        StyleKey::DigitalDisplayFontItalic => assert(key_at(142) == k),
        StyleKey::DigitalDisplay14SegFont => assert(key_at(143) == k),
        StyleKey::DigitalDisplay14SegItalic => assert(key_at(144) == k),
        StyleKey::IndicatorNormalColor => assert(key_at(145) == k),
        StyleKey::IndicatorWarningColor => assert(key_at(146) == k),
        StyleKey::IndicatorCriticalColor => assert(key_at(147) == k),
        StyleKey::IndicatorOffColor => assert(key_at(148) == k),
        StyleKey::IndicatorBlinkSpeed => assert(key_at(149) == k),
        StyleKey::IndicatorGlowEnabled => assert(key_at(150) == k),
        StyleKey::IndicatorGlowRadius => assert(key_at(151) == k),
        StyleKey::IndicatorSize => assert(key_at(152) == k),
        StyleKey::AnimationNeedleSpeed => assert(key_at(153) == k),
        StyleKey::AnimationBarSpeed => assert(key_at(154) == k),
        StyleKey::AnimationSmoothEnabled => assert(key_at(155) == k),
        StyleKey::AlertFontPath => assert(key_at(156) == k),
        StyleKey::AlertFontSize => assert(key_at(157) == k),
        StyleKey::AlertWarningColor => assert(key_at(158) == k),
        StyleKey::AlertCriticalColor => assert(key_at(159) == k),
        StyleKey::AlertBackgroundColor => assert(key_at(160) == k),
        StyleKey::AlertBorderColor => assert(key_at(161) == k),
        StyleKey::AlertBorderWidth => assert(key_at(162) == k),
        StyleKey::AlertMargin => assert(key_at(163) == k),
        StyleKey::AlertCornerRadius => assert(key_at(164) == k),
        StyleKey::AlertSoundPath => assert(key_at(165) == k),
    }
}

/// Every key, in declaration order.
pub open spec fn all_keys() -> Seq<StyleKey> {
    Seq::new(STYLE_KEY_COUNT as nat, |i: int| key_at(i))
}

impl StyleKey {
    /// The key's name in the style file.
    pub fn json_name(&self) -> (r: &'static str)
        ensures
            r@ == key_name(*self),
    {
        match self {
            StyleKey::GlobalContrast => "global_contrast",
            StyleKey::GlobalBackgroundColor => "global_background_color",
            StyleKey::GlobalFontPath => "global_font_path",
            StyleKey::GlobalFontSize => "global_font_size",
            StyleKey::PageButtonLabelFont => "page_button_label_font",
            StyleKey::PageButtonLabelFontSize => "page_button_label_font_size",
            StyleKey::PageButtonLabelOrientation => "page_button_label_orientation",
            StyleKey::PageButtonLabelColor => "page_button_label_color",
            StyleKey::PageButtonPressedFrameColor => "page_button_pressed_frame_color",
            StyleKey::PageButtonPressedFrameWidth => "page_button_pressed_frame_width",
            StyleKey::PageButtonPressedFramePadding => "page_button_pressed_frame_padding",
            StyleKey::PageStatusFont => "page_status_font",
            StyleKey::PageStatusFontSize => "page_status_font_size",
            StyleKey::PageStatusColor => "page_status_color",
            StyleKey::GaugeBackgroundColor => "gauge_background_color",
            StyleKey::GaugeBorderColor => "gauge_border_color",
            StyleKey::GaugeBorderWidth => "gauge_border_width",
            StyleKey::GaugeRadius => "gauge_radius",
            StyleKey::GaugeNeedleColor => "gauge_needle_color",
            StyleKey::GaugeNeedleWidth => "gauge_needle_width",
            StyleKey::GaugeNeedleLength => "gauge_needle_length",
            StyleKey::GaugeNeedleTipWidth => "gauge_needle_tip_width",
            StyleKey::GaugeNeedleCenterColor => "gauge_needle_center_color",
            StyleKey::GaugeNeedleCenterRadius => "gauge_needle_center_radius",
            StyleKey::GaugeNeedleShadowEnabled => "gauge_needle_shadow_enabled",
            StyleKey::GaugeNeedleShadowColor => "gauge_needle_shadow_color",
            StyleKey::GaugeNeedleGlowEnabled => "gauge_needle_glow_enabled",
            StyleKey::GaugeMajorMarkColor => "gauge_major_mark_color",
            StyleKey::GaugeMajorMarkWidth => "gauge_major_mark_width",
            StyleKey::GaugeMajorMarkLength => "gauge_major_mark_length",
            StyleKey::GaugeMajorMarkOffset => "gauge_major_mark_offset",
            StyleKey::GaugeMajorMarkEnabled => "gauge_major_mark_enabled",
            StyleKey::GaugeMajorMarkCount => "gauge_major_mark_count",
            StyleKey::GaugeMinorMarkColor => "gauge_minor_mark_color",
            StyleKey::GaugeMinorMarkWidth => "gauge_minor_mark_width",
            StyleKey::GaugeMinorMarkLength => "gauge_minor_mark_length",
            StyleKey::GaugeMinorMarkOffset => "gauge_minor_mark_offset",
            StyleKey::GaugeMinorMarkEnabled => "gauge_minor_mark_enabled",
            StyleKey::GaugeMinorMarkCount => "gauge_minor_mark_count",
            StyleKey::GaugeLabelColor => "gauge_label_color",
            StyleKey::GaugeLabelFont => "gauge_label_font",
            StyleKey::GaugeLabelFontSize => "gauge_label_font_size",
            StyleKey::GaugeLabelOffset => "gauge_label_offset",
            StyleKey::GaugeLabelEnabled => "gauge_label_enabled",
            StyleKey::GaugeTitleColor => "gauge_title_color",
            StyleKey::GaugeTitleFont => "gauge_title_font",
            StyleKey::GaugeTitleFontSize => "gauge_title_font_size",
            StyleKey::GaugeTitleOffsetH => "gauge_title_offset_h",
            StyleKey::GaugeTitleOffsetV => "gauge_title_offset_v",
            StyleKey::GaugeTitleEnabled => "gauge_title_enabled",
            StyleKey::GaugeUnitColor => "gauge_unit_color",
            StyleKey::GaugeUnitFont => "gauge_unit_font",
            StyleKey::GaugeUnitFontSize => "gauge_unit_font_size",
            StyleKey::GaugeUnitOffsetH => "gauge_unit_offset_h",
            StyleKey::GaugeUnitOffsetV => "gauge_unit_offset_v",
            StyleKey::GaugeUnitEnabled => "gauge_unit_enabled",
            StyleKey::GaugeNormalZoneColor => "gauge_normal_zone_color",
            StyleKey::GaugeNormalZoneWidth => "gauge_normal_zone_width",
            StyleKey::GaugeNormalZoneEnabled => "gauge_normal_zone_enabled",
            StyleKey::GaugeWarningZoneColor => "gauge_warning_zone_color",
            StyleKey::GaugeWarningZoneWidth => "gauge_warning_zone_width",
            StyleKey::GaugeWarningZoneEnabled => "gauge_warning_zone_enabled",
            StyleKey::GaugeCriticalZoneColor => "gauge_critical_zone_color",
            StyleKey::GaugeCriticalZoneWidth => "gauge_critical_zone_width",
            StyleKey::GaugeCriticalZoneEnabled => "gauge_critical_zone_enabled",
            StyleKey::GaugeInactiveZoneColor => "gauge_inactive_zone_color",
            StyleKey::GaugeInactiveZoneWidth => "gauge_inactive_zone_width",
            StyleKey::GaugeInactiveZoneEnabled => "gauge_inactive_zone_enabled",
            StyleKey::BarBackgroundColor => "bar_background_color",
            StyleKey::BarBackgroundEnabled => "bar_background_enabled",
            StyleKey::BarBorderColor => "bar_border_color",
            StyleKey::BarBorderEnabled => "bar_border_enabled",
            StyleKey::BarBorderWidth => "bar_border_width",
            StyleKey::BarCornerRadius => "bar_corner_radius",
            StyleKey::BarEmptyColor => "bar_empty_color",
            StyleKey::BarNormalColor => "bar_normal_color",
            StyleKey::BarWarningColor => "bar_warning_color",
            StyleKey::BarCriticalColor => "bar_critical_color",
            StyleKey::BarMarksColor => "bar_marks_color",
            StyleKey::BarMarksWidth => "bar_marks_width",
            StyleKey::BarMarksThickness => "bar_marks_thickness",
            StyleKey::BarMarkLabelsColor => "bar_mark_labels_color",
            StyleKey::BarSegmentCount => "bar_segment_count",
            StyleKey::BarSegmentGap => "bar_segment_gap",
            StyleKey::CompassMajorMarkColor => "compass_major_mark_color",
            StyleKey::CompassMinorMarkColor => "compass_minor_mark_color",
            StyleKey::CompassLabelColor => "compass_label_color",
            StyleKey::CompassLabelFont => "compass_label_font",
            StyleKey::CompassLabelFontSize => "compass_label_font_size",
            StyleKey::CompassArrowColor => "compass_arrow_color",
            StyleKey::CompassCenterLineColor => "compass_center_line_color",
            StyleKey::CompassHeadingColor => "compass_heading_color",
            StyleKey::CompassHdopExcellentColor => "compass_hdop_excellent_color",
            StyleKey::CompassHdopGoodColor => "compass_hdop_good_color",
            StyleKey::CompassHdopModerateColor => "compass_hdop_moderate_color",
            StyleKey::CompassHdopPoorColor => "compass_hdop_poor_color",
            StyleKey::PitchSkyColor => "pitch_sky_color",
            StyleKey::PitchGroundColor => "pitch_ground_color",
            StyleKey::PitchAboveHorizonLabelColor => "pitch_above_horizon_label_color",
            StyleKey::PitchBelowHorizonLabelColor => "pitch_below_horizon_label_color",
            StyleKey::PitchBorderColor => "pitch_border_color",
            StyleKey::PitchBorderWidth => "pitch_border_width",
            StyleKey::PitchLabelFont => "pitch_label_font",
            StyleKey::PitchLabelFontSize => "pitch_label_font_size",
            StyleKey::RollIndicatorColor => "roll_indicator_color",
            StyleKey::RollScaleColor => "roll_scale_color",
            StyleKey::RollScaleLabelFont => "roll_scale_label_font",
            StyleKey::RollScaleLabelFontSize => "roll_scale_label_font_size",
            StyleKey::TextPrimaryColor => "text_primary_color",
            StyleKey::TextSecondaryColor => "text_secondary_color",
            StyleKey::TextAccentColor => "text_accent_color",
            StyleKey::TextWarningColor => "text_warning_color",
            StyleKey::TextErrorColor => "text_error_color",
            StyleKey::TextPrimaryFont => "text_primary_font",
            StyleKey::TextPrimaryFontSize => "text_primary_font_size",
            StyleKey::TextSecondaryFont => "text_secondary_font",
            StyleKey::TextSecondaryFontSize => "text_secondary_font_size",
            StyleKey::TextMonospaceFont => "text_monospace_font",
            StyleKey::TextMonospaceFontSize => "text_monospace_font_size",
            StyleKey::TextSmallFont => "text_small_font",
            StyleKey::TextSmallFontSize => "text_small_font_size",
            StyleKey::TextLineSpacing => "text_line_spacing",
            StyleKey::TextLetterSpacing => "text_letter_spacing",
            StyleKey::TerminalBackgroundColor => "terminal_background_color",
            StyleKey::TerminalBackgroundEnabled => "terminal_background_enabled",
            StyleKey::TerminalBorderColor => "terminal_border_color",
            StyleKey::TerminalBorderEnabled => "terminal_border_enabled",
            StyleKey::TerminalBorderWidth => "terminal_border_width",
            StyleKey::TerminalTextColor => "terminal_text_color",
            StyleKey::TerminalPadding => "terminal_padding",
            StyleKey::DigitalDisplayFont => "digital_display_font",
            StyleKey::DigitalDisplayFontSize => "digital_display_font_size",
            StyleKey::DigitalDisplayScale => "digital_display_scale",
            StyleKey::DigitalDisplayActiveColor => "digital_display_active_color",
            StyleKey::DigitalDisplayInactiveColor => "digital_display_inactive_color",
            StyleKey::DigitalDisplayInactiveColorBlending => "digital_display_inactive_color_blending",
            StyleKey::DigitalDisplayBackgroundColor => "digital_display_background_color",
            StyleKey::DigitalDisplayBackgroundEnabled => "digital_display_background_enabled",
            StyleKey::DigitalDisplayBorderEnabled => "digital_display_border_enabled",
            StyleKey::DigitalDisplayBorderColor => "digital_display_border_color",
            StyleKey::DigitalDisplayBorderWidth => "digital_display_border_width",
            StyleKey::DigitalDisplayBorderRadius => "digital_display_border_radius",
            StyleKey::DigitalDisplayFontItalic => "digital_display_font_italic",
            StyleKey::DigitalDisplay14SegFont => "digital_display_14seg_font",
            StyleKey::DigitalDisplay14SegItalic => "digital_display_14seg_italic",
            StyleKey::IndicatorNormalColor => "indicator_normal_color",
            StyleKey::IndicatorWarningColor => "indicator_warning_color",
            StyleKey::IndicatorCriticalColor => "indicator_critical_color",
            StyleKey::IndicatorOffColor => "indicator_off_color",
            StyleKey::IndicatorBlinkSpeed => "indicator_blink_speed",
            StyleKey::IndicatorGlowEnabled => "indicator_glow_enabled",
            StyleKey::IndicatorGlowRadius => "indicator_glow_radius",
            StyleKey::IndicatorSize => "indicator_size",
            StyleKey::AnimationNeedleSpeed => "animation_needle_speed",
            StyleKey::AnimationBarSpeed => "animation_bar_speed",
            StyleKey::AnimationSmoothEnabled => "animation_smooth_enabled",
            StyleKey::AlertFontPath => "alert_font_path",
            StyleKey::AlertFontSize => "alert_font_size",
            StyleKey::AlertWarningColor => "alert_warning_color",
            StyleKey::AlertCriticalColor => "alert_critical_color",
            StyleKey::AlertBackgroundColor => "alert_background_color",
            StyleKey::AlertBorderColor => "alert_border_color",
            StyleKey::AlertBorderWidth => "alert_border_width",
            StyleKey::AlertMargin => "alert_margin",
            StyleKey::AlertCornerRadius => "alert_corner_radius",
            StyleKey::AlertSoundPath => "alert_sound_path",
        }
    }

    /// The kind of value the key holds.
    pub fn kind(&self) -> (r: ValueKind)
        ensures
            r == key_kind(*self),
    {
        match self {
            StyleKey::GlobalContrast => ValueKind::Float,
            StyleKey::GlobalBackgroundColor => ValueKind::Color,
            StyleKey::GlobalFontPath => ValueKind::String,
            StyleKey::GlobalFontSize => ValueKind::Integer,
            StyleKey::PageButtonLabelFont => ValueKind::String,
            StyleKey::PageButtonLabelFontSize => ValueKind::Integer,
            StyleKey::PageButtonLabelOrientation => ValueKind::String,
            StyleKey::PageButtonLabelColor => ValueKind::Color,
            StyleKey::PageButtonPressedFrameColor => ValueKind::Color,
            StyleKey::PageButtonPressedFrameWidth => ValueKind::Float,
            StyleKey::PageButtonPressedFramePadding => ValueKind::Float,
            StyleKey::PageStatusFont => ValueKind::String,
            StyleKey::PageStatusFontSize => ValueKind::Integer,
            StyleKey::PageStatusColor => ValueKind::Color,
            StyleKey::GaugeBackgroundColor => ValueKind::Color,
            StyleKey::GaugeBorderColor => ValueKind::Color,
            StyleKey::GaugeBorderWidth => ValueKind::Float,
            StyleKey::GaugeRadius => ValueKind::Float,
            StyleKey::GaugeNeedleColor => ValueKind::Color,
            StyleKey::GaugeNeedleWidth => ValueKind::Float,
            StyleKey::GaugeNeedleLength => ValueKind::Float,
            StyleKey::GaugeNeedleTipWidth => ValueKind::Float,
            StyleKey::GaugeNeedleCenterColor => ValueKind::Color,
            StyleKey::GaugeNeedleCenterRadius => ValueKind::Float,
            StyleKey::GaugeNeedleShadowEnabled => ValueKind::Boolean,
            StyleKey::GaugeNeedleShadowColor => ValueKind::Color,
            StyleKey::GaugeNeedleGlowEnabled => ValueKind::Boolean,
            StyleKey::GaugeMajorMarkColor => ValueKind::Color,
            StyleKey::GaugeMajorMarkWidth => ValueKind::Float,
            StyleKey::GaugeMajorMarkLength => ValueKind::Float,
            StyleKey::GaugeMajorMarkOffset => ValueKind::Float,
            StyleKey::GaugeMajorMarkEnabled => ValueKind::Boolean,
            StyleKey::GaugeMajorMarkCount => ValueKind::Integer,
            StyleKey::GaugeMinorMarkColor => ValueKind::Color,
            StyleKey::GaugeMinorMarkWidth => ValueKind::Float,
            StyleKey::GaugeMinorMarkLength => ValueKind::Float,
            StyleKey::GaugeMinorMarkOffset => ValueKind::Float,
            StyleKey::GaugeMinorMarkEnabled => ValueKind::Boolean,
            StyleKey::GaugeMinorMarkCount => ValueKind::Integer,
            StyleKey::GaugeLabelColor => ValueKind::Color,
            StyleKey::GaugeLabelFont => ValueKind::String,
            StyleKey::GaugeLabelFontSize => ValueKind::Integer,
            StyleKey::GaugeLabelOffset => ValueKind::Float,
            StyleKey::GaugeLabelEnabled => ValueKind::Boolean,
            StyleKey::GaugeTitleColor => ValueKind::Color,
            StyleKey::GaugeTitleFont => ValueKind::String,
            StyleKey::GaugeTitleFontSize => ValueKind::Integer,
            StyleKey::GaugeTitleOffsetH => ValueKind::Float,
            StyleKey::GaugeTitleOffsetV => ValueKind::Float,
            StyleKey::GaugeTitleEnabled => ValueKind::Boolean,
            StyleKey::GaugeUnitColor => ValueKind::Color,
            StyleKey::GaugeUnitFont => ValueKind::String,
            StyleKey::GaugeUnitFontSize => ValueKind::Integer,
            StyleKey::GaugeUnitOffsetH => ValueKind::Float,
            StyleKey::GaugeUnitOffsetV => ValueKind::Float,
            StyleKey::GaugeUnitEnabled => ValueKind::Boolean,
            StyleKey::GaugeNormalZoneColor => ValueKind::Color,
            StyleKey::GaugeNormalZoneWidth => ValueKind::Float,
            StyleKey::GaugeNormalZoneEnabled => ValueKind::Boolean,
            StyleKey::GaugeWarningZoneColor => ValueKind::Color,
            StyleKey::GaugeWarningZoneWidth => ValueKind::Float,
            StyleKey::GaugeWarningZoneEnabled => ValueKind::Boolean,
            StyleKey::GaugeCriticalZoneColor => ValueKind::Color,
            StyleKey::GaugeCriticalZoneWidth => ValueKind::Float,
            StyleKey::GaugeCriticalZoneEnabled => ValueKind::Boolean,
            StyleKey::GaugeInactiveZoneColor => ValueKind::Color,
            StyleKey::GaugeInactiveZoneWidth => ValueKind::Float,
            StyleKey::GaugeInactiveZoneEnabled => ValueKind::Boolean,
            StyleKey::BarBackgroundColor => ValueKind::Color,
            StyleKey::BarBackgroundEnabled => ValueKind::Boolean,
            StyleKey::BarBorderColor => ValueKind::Color,
            StyleKey::BarBorderEnabled => ValueKind::Boolean,
            StyleKey::BarBorderWidth => ValueKind::Float,
            StyleKey::BarCornerRadius => ValueKind::Float,
            StyleKey::BarEmptyColor => ValueKind::Color,
            StyleKey::BarNormalColor => ValueKind::Color,
            StyleKey::BarWarningColor => ValueKind::Color,
            StyleKey::BarCriticalColor => ValueKind::Color,
            StyleKey::BarMarksColor => ValueKind::Color,
            StyleKey::BarMarksWidth => ValueKind::Float,
            StyleKey::BarMarksThickness => ValueKind::Float,
            StyleKey::BarMarkLabelsColor => ValueKind::Color,
            StyleKey::BarSegmentCount => ValueKind::Integer,
            StyleKey::BarSegmentGap => ValueKind::Float,
            StyleKey::CompassMajorMarkColor => ValueKind::Color,
            StyleKey::CompassMinorMarkColor => ValueKind::Color,
            StyleKey::CompassLabelColor => ValueKind::Color,
            StyleKey::CompassLabelFont => ValueKind::String,
            StyleKey::CompassLabelFontSize => ValueKind::Integer,
            StyleKey::CompassArrowColor => ValueKind::Color,
            StyleKey::CompassCenterLineColor => ValueKind::Color,
            StyleKey::CompassHeadingColor => ValueKind::Color,
            StyleKey::CompassHdopExcellentColor => ValueKind::Color,
            StyleKey::CompassHdopGoodColor => ValueKind::Color,
            StyleKey::CompassHdopModerateColor => ValueKind::Color,
            StyleKey::CompassHdopPoorColor => ValueKind::Color,
            StyleKey::PitchSkyColor => ValueKind::Color,
            StyleKey::PitchGroundColor => ValueKind::Color,
            StyleKey::PitchAboveHorizonLabelColor => ValueKind::Color,
            StyleKey::PitchBelowHorizonLabelColor => ValueKind::Color,
            StyleKey::PitchBorderColor => ValueKind::Color,
            StyleKey::PitchBorderWidth => ValueKind::Float,
            StyleKey::PitchLabelFont => ValueKind::String,
            StyleKey::PitchLabelFontSize => ValueKind::Integer,
            StyleKey::RollIndicatorColor => ValueKind::Color,
            StyleKey::RollScaleColor => ValueKind::Color,
            StyleKey::RollScaleLabelFont => ValueKind::String,
            StyleKey::RollScaleLabelFontSize => ValueKind::Integer,
            StyleKey::TextPrimaryColor => ValueKind::Color,
            StyleKey::TextSecondaryColor => ValueKind::Color,
            StyleKey::TextAccentColor => ValueKind::Color,
            StyleKey::TextWarningColor => ValueKind::Color,
            StyleKey::TextErrorColor => ValueKind::Color,
            StyleKey::TextPrimaryFont => ValueKind::String,
            StyleKey::TextPrimaryFontSize => ValueKind::Integer,
            StyleKey::TextSecondaryFont => ValueKind::String,
            StyleKey::TextSecondaryFontSize => ValueKind::Integer,
            StyleKey::TextMonospaceFont => ValueKind::String,
            StyleKey::TextMonospaceFontSize => ValueKind::Integer,
            StyleKey::TextSmallFont => ValueKind::String,
            StyleKey::TextSmallFontSize => ValueKind::Integer,
            StyleKey::TextLineSpacing => ValueKind::Float,
            StyleKey::TextLetterSpacing => ValueKind::Float,
            StyleKey::TerminalBackgroundColor => ValueKind::Color,
            StyleKey::TerminalBackgroundEnabled => ValueKind::Boolean,
            StyleKey::TerminalBorderColor => ValueKind::Color,
            StyleKey::TerminalBorderEnabled => ValueKind::Boolean,
            StyleKey::TerminalBorderWidth => ValueKind::Float,
            StyleKey::TerminalTextColor => ValueKind::Color,
            StyleKey::TerminalPadding => ValueKind::Float,
            StyleKey::DigitalDisplayFont => ValueKind::String,
            StyleKey::DigitalDisplayFontSize => ValueKind::Integer,
            StyleKey::DigitalDisplayScale => ValueKind::Float,
            StyleKey::DigitalDisplayActiveColor => ValueKind::Color,
            StyleKey::DigitalDisplayInactiveColor => ValueKind::Color,
            StyleKey::DigitalDisplayInactiveColorBlending => ValueKind::Float,
            StyleKey::DigitalDisplayBackgroundColor => ValueKind::Color,
            StyleKey::DigitalDisplayBackgroundEnabled => ValueKind::Boolean,
            StyleKey::DigitalDisplayBorderEnabled => ValueKind::Boolean,
            StyleKey::DigitalDisplayBorderColor => ValueKind::Color,
            StyleKey::DigitalDisplayBorderWidth => ValueKind::Float,
            StyleKey::DigitalDisplayBorderRadius => ValueKind::Float,
            StyleKey::DigitalDisplayFontItalic => ValueKind::String,
            StyleKey::DigitalDisplay14SegFont => ValueKind::String,
            StyleKey::DigitalDisplay14SegItalic => ValueKind::String,
            StyleKey::IndicatorNormalColor => ValueKind::Color,
            StyleKey::IndicatorWarningColor => ValueKind::Color,
            StyleKey::IndicatorCriticalColor => ValueKind::Color,
            StyleKey::IndicatorOffColor => ValueKind::Color,
            StyleKey::IndicatorBlinkSpeed => ValueKind::Float,
            StyleKey::IndicatorGlowEnabled => ValueKind::Boolean,
            StyleKey::IndicatorGlowRadius => ValueKind::Float,
            StyleKey::IndicatorSize => ValueKind::Float,
            StyleKey::AnimationNeedleSpeed => ValueKind::Float,
            StyleKey::AnimationBarSpeed => ValueKind::Float,
            StyleKey::AnimationSmoothEnabled => ValueKind::Boolean,
            StyleKey::AlertFontPath => ValueKind::String,
            StyleKey::AlertFontSize => ValueKind::Integer,
            StyleKey::AlertWarningColor => ValueKind::Color,
            StyleKey::AlertCriticalColor => ValueKind::Color,
            StyleKey::AlertBackgroundColor => ValueKind::Color,
            StyleKey::AlertBorderColor => ValueKind::Color,
            StyleKey::AlertBorderWidth => ValueKind::Float,
            StyleKey::AlertMargin => ValueKind::Float,
            StyleKey::AlertCornerRadius => ValueKind::Float,
            StyleKey::AlertSoundPath => ValueKind::String,
        }
    }
}

impl StyleKey {
    /// The key at position `i` of the declaration order.
    pub fn at(i: usize) -> (k: StyleKey)
        requires
            i < STYLE_KEY_COUNT,
        ensures
            k == key_at(i as int),
    {
        match i {
            0 => StyleKey::GlobalContrast,
            1 => StyleKey::GlobalBackgroundColor,
            2 => StyleKey::GlobalFontPath,
            3 => StyleKey::GlobalFontSize,
            4 => StyleKey::PageButtonLabelFont,
            5 => StyleKey::PageButtonLabelFontSize,
            6 => StyleKey::PageButtonLabelOrientation,
            7 => StyleKey::PageButtonLabelColor,
            8 => StyleKey::PageButtonPressedFrameColor,
            9 => StyleKey::PageButtonPressedFrameWidth,
            10 => StyleKey::PageButtonPressedFramePadding,
            11 => StyleKey::PageStatusFont,
            12 => StyleKey::PageStatusFontSize,
            13 => StyleKey::PageStatusColor,
            14 => StyleKey::GaugeBackgroundColor,
            15 => StyleKey::GaugeBorderColor,
            16 => StyleKey::GaugeBorderWidth,
            17 => StyleKey::GaugeRadius,
            18 => StyleKey::GaugeNeedleColor,
            19 => StyleKey::GaugeNeedleWidth,
            20 => StyleKey::GaugeNeedleLength,
            21 => StyleKey::GaugeNeedleTipWidth,
            22 => StyleKey::GaugeNeedleCenterColor,
            23 => StyleKey::GaugeNeedleCenterRadius,
            24 => StyleKey::GaugeNeedleShadowEnabled,
            25 => StyleKey::GaugeNeedleShadowColor,
            26 => StyleKey::GaugeNeedleGlowEnabled,
            27 => StyleKey::GaugeMajorMarkColor,
            28 => StyleKey::GaugeMajorMarkWidth,
            29 => StyleKey::GaugeMajorMarkLength,
            30 => StyleKey::GaugeMajorMarkOffset,
            31 => StyleKey::GaugeMajorMarkEnabled,
            32 => StyleKey::GaugeMajorMarkCount,
            33 => StyleKey::GaugeMinorMarkColor,
            34 => StyleKey::GaugeMinorMarkWidth,
            35 => StyleKey::GaugeMinorMarkLength,
            36 => StyleKey::GaugeMinorMarkOffset,
            37 => StyleKey::GaugeMinorMarkEnabled,
            38 => StyleKey::GaugeMinorMarkCount,
            39 => StyleKey::GaugeLabelColor,
            40 => StyleKey::GaugeLabelFont,
            41 => StyleKey::GaugeLabelFontSize,
            42 => StyleKey::GaugeLabelOffset,
            43 => StyleKey::GaugeLabelEnabled,
            44 => StyleKey::GaugeTitleColor,
            45 => StyleKey::GaugeTitleFont,
            46 => StyleKey::GaugeTitleFontSize,
            47 => StyleKey::GaugeTitleOffsetH,
            48 => StyleKey::GaugeTitleOffsetV,
            49 => StyleKey::GaugeTitleEnabled,
            50 => StyleKey::GaugeUnitColor,
            51 => StyleKey::GaugeUnitFont,
            52 => StyleKey::GaugeUnitFontSize,
            53 => StyleKey::GaugeUnitOffsetH,
            54 => StyleKey::GaugeUnitOffsetV,
            55 => StyleKey::GaugeUnitEnabled,
            56 => StyleKey::GaugeNormalZoneColor,
            57 => StyleKey::GaugeNormalZoneWidth,
            58 => StyleKey::GaugeNormalZoneEnabled,
            59 => StyleKey::GaugeWarningZoneColor,
            60 => StyleKey::GaugeWarningZoneWidth,
            61 => StyleKey::GaugeWarningZoneEnabled,
            62 => StyleKey::GaugeCriticalZoneColor,
            63 => StyleKey::GaugeCriticalZoneWidth,
            64 => StyleKey::GaugeCriticalZoneEnabled,
            65 => StyleKey::GaugeInactiveZoneColor,
            66 => StyleKey::GaugeInactiveZoneWidth,
            67 => StyleKey::GaugeInactiveZoneEnabled,
            68 => StyleKey::BarBackgroundColor,
            69 => StyleKey::BarBackgroundEnabled,
            70 => StyleKey::BarBorderColor,
            71 => StyleKey::BarBorderEnabled,
            72 => StyleKey::BarBorderWidth,
            73 => StyleKey::BarCornerRadius,
            74 => StyleKey::BarEmptyColor,
            75 => StyleKey::BarNormalColor,
            76 => StyleKey::BarWarningColor,
            77 => StyleKey::BarCriticalColor,
            78 => StyleKey::BarMarksColor,
            79 => StyleKey::BarMarksWidth,
            80 => StyleKey::BarMarksThickness,
            81 => StyleKey::BarMarkLabelsColor,
            82 => StyleKey::BarSegmentCount,
            83 => StyleKey::BarSegmentGap,
            84 => StyleKey::CompassMajorMarkColor,
            85 => StyleKey::CompassMinorMarkColor,
            86 => StyleKey::CompassLabelColor,
            87 => StyleKey::CompassLabelFont,
            88 => StyleKey::CompassLabelFontSize,
            89 => StyleKey::CompassArrowColor,
            90 => StyleKey::CompassCenterLineColor,
            91 => StyleKey::CompassHeadingColor,
            92 => StyleKey::CompassHdopExcellentColor,
            93 => StyleKey::CompassHdopGoodColor,
            94 => StyleKey::CompassHdopModerateColor,
            95 => StyleKey::CompassHdopPoorColor,
            96 => StyleKey::PitchSkyColor,
            97 => StyleKey::PitchGroundColor,
            98 => StyleKey::PitchAboveHorizonLabelColor,
            99 => StyleKey::PitchBelowHorizonLabelColor,
            100 => StyleKey::PitchBorderColor,
            101 => StyleKey::PitchBorderWidth,
            102 => StyleKey::PitchLabelFont,
            103 => StyleKey::PitchLabelFontSize,
            104 => StyleKey::RollIndicatorColor,
            105 => StyleKey::RollScaleColor,
            106 => StyleKey::RollScaleLabelFont,
            107 => StyleKey::RollScaleLabelFontSize,
            108 => StyleKey::TextPrimaryColor,
            109 => StyleKey::TextSecondaryColor,
            110 => StyleKey::TextAccentColor,
            111 => StyleKey::TextWarningColor,
            112 => StyleKey::TextErrorColor,
            113 => StyleKey::TextPrimaryFont,
            114 => StyleKey::TextPrimaryFontSize,
            115 => StyleKey::TextSecondaryFont,
            116 => StyleKey::TextSecondaryFontSize,
            117 => StyleKey::TextMonospaceFont,
            118 => StyleKey::TextMonospaceFontSize,
            119 => StyleKey::TextSmallFont,
            120 => StyleKey::TextSmallFontSize,
            121 => StyleKey::TextLineSpacing,
            122 => StyleKey::TextLetterSpacing,
            123 => StyleKey::TerminalBackgroundColor,
            124 => StyleKey::TerminalBackgroundEnabled,
            125 => StyleKey::TerminalBorderColor,
            126 => StyleKey::TerminalBorderEnabled,
            127 => StyleKey::TerminalBorderWidth,
            128 => StyleKey::TerminalTextColor,
            129 => StyleKey::TerminalPadding,
            130 => StyleKey::DigitalDisplayFont,
            131 => StyleKey::DigitalDisplayFontSize,
            132 => StyleKey::DigitalDisplayScale,
            133 => StyleKey::DigitalDisplayActiveColor,
            134 => StyleKey::DigitalDisplayInactiveColor,
            135 => StyleKey::DigitalDisplayInactiveColorBlending,
            136 => StyleKey::DigitalDisplayBackgroundColor,
            137 => StyleKey::DigitalDisplayBackgroundEnabled,
            138 => StyleKey::DigitalDisplayBorderEnabled,
            139 => StyleKey::DigitalDisplayBorderColor,
            140 => StyleKey::DigitalDisplayBorderWidth,
            141 => StyleKey::DigitalDisplayBorderRadius,
            142 => StyleKey::DigitalDisplayFontItalic,
            143 => StyleKey::DigitalDisplay14SegFont,
            144 => StyleKey::DigitalDisplay14SegItalic,
            145 => StyleKey::IndicatorNormalColor,
            146 => StyleKey::IndicatorWarningColor,
            147 => StyleKey::IndicatorCriticalColor,
            148 => StyleKey::IndicatorOffColor,
            149 => StyleKey::IndicatorBlinkSpeed,
            150 => StyleKey::IndicatorGlowEnabled,
            151 => StyleKey::IndicatorGlowRadius,
            152 => StyleKey::IndicatorSize,
            153 => StyleKey::AnimationNeedleSpeed,
            154 => StyleKey::AnimationBarSpeed,
            155 => StyleKey::AnimationSmoothEnabled,
            156 => StyleKey::AlertFontPath,
            157 => StyleKey::AlertFontSize,
            158 => StyleKey::AlertWarningColor,
            159 => StyleKey::AlertCriticalColor,
            160 => StyleKey::AlertBackgroundColor,
            161 => StyleKey::AlertBorderColor,
            162 => StyleKey::AlertBorderWidth,
            163 => StyleKey::AlertMargin,
            164 => StyleKey::AlertCornerRadius,
            _ => StyleKey::AlertSoundPath,
        }
    }
}

/// Every key, in declaration order.
pub fn all_style_keys() -> (r: Vec<StyleKey>)
    ensures
        r@ == all_keys(),
{
    let mut r: Vec<StyleKey> = Vec::new();
    let mut i: usize = 0;
    while i < STYLE_KEY_COUNT
        invariant
            i <= STYLE_KEY_COUNT,
            r@ == Seq::new(i as nat, |j: int| key_at(j)),
        decreases STYLE_KEY_COUNT - i,
    {
        r.push(StyleKey::at(i));
        i = i + 1;
        assert(r@ =~= Seq::new(i as nat, |j: int| key_at(j)));
    }
    r
}

} // verus!
