//! The fixed parts of every page, and the pages and fragments built from
//! them.

use crate::html::escape::{
    attribute_escaped, encode_quoted_attribute, encode_text, text_escaped,
};
use crate::text::{decimal, decimal_string};
use vstd::prelude::*;
use vstd::string::*;

verus! {

/// The style sheet of every page.
pub const CSS_STYLES: &'static str = r#"
/* Light mode (default) - optimized for readability
   Uses soft white background to reduce harshness
   Text uses dark gray for better contrast without pure black
   WCAG AA compliant contrast ratios */
:root {
    --bg-primary: #fafafa;
    --bg-secondary: #f0f1f2;
    --text-primary: #1f2937;
    --text-secondary: #4b5563;
    --text-muted: #6b7280;
    --border-color: #d1d5db;
    --link-color: #2563eb;
    --accent-color: #3b82f6;
    --toggle-bg: #e5e7eb;
    --toggle-knob: #ffffff;
    --toggle-icon: #f59e0b;
}

/* Dark mode - optimized for reduced eye strain
   Uses dark gray (#121212 base) instead of pure black
   Text uses light gray instead of pure white to reduce halation
   Desaturated accent colors to avoid harshness */
@media (prefers-color-scheme: dark) {
    :root:not([data-theme="light"]) {
        --bg-primary: #121212;
        --bg-secondary: #1e1e1e;
        --text-primary: #e4e4e7;
        --text-secondary: #a1a1aa;
        --text-muted: #71717a;
        --border-color: #3f3f46;
        --link-color: #60a5fa;
        --accent-color: #3b82f6;
        --toggle-bg: #3f3f46;
        --toggle-knob: #18181b;
        --toggle-icon: #fbbf24;
    }
}

/* Explicit dark theme override */
[data-theme="dark"] {
    --bg-primary: #121212;
    --bg-secondary: #1e1e1e;
    --text-primary: #e4e4e7;
    --text-secondary: #a1a1aa;
    --text-muted: #71717a;
    --border-color: #3f3f46;
    --link-color: #60a5fa;
    --accent-color: #3b82f6;
    --toggle-bg: #3f3f46;
    --toggle-knob: #18181b;
    --toggle-icon: #fbbf24;
}

/* Explicit light theme override */
[data-theme="light"] {
    --bg-primary: #fafafa;
    --bg-secondary: #f0f1f2;
    --text-primary: #1f2937;
    --text-secondary: #4b5563;
    --text-muted: #6b7280;
    --border-color: #d1d5db;
    --link-color: #2563eb;
    --accent-color: #3b82f6;
    --toggle-bg: #e5e7eb;
    --toggle-knob: #ffffff;
    --toggle-icon: #f59e0b;
}

* {
    box-sizing: border-box;
    margin: 0;
    padding: 0;
}

body {
    font-family: -apple-system, BlinkMacSystemFont, "Segoe UI", Roboto, Oxygen, Ubuntu, Cantarell, sans-serif;
    line-height: 1.6;
    color: var(--text-primary);
    background-color: var(--bg-primary);
    max-width: 700px;
    margin: 0 auto;
    padding: 20px;
    padding-top: 80px;
}

header {
    position: fixed;
    top: 0;
    left: 0;
    right: 0;
    max-width: 700px;
    margin: 0 auto;
    padding: 16px 20px;
    background-color: var(--bg-primary);
    border-bottom: 1px solid var(--border-color);
    display: flex;
    align-items: center;
    justify-content: space-between;
    gap: 16px;
    z-index: 100;
    transition: padding 0.2s ease, transform 0.2s ease;
}

header.compact {
    padding: 8px 20px;
}

header.compact .avatar,
header.compact .avatar-placeholder {
    width: 32px;
    height: 32px;
    font-size: 14px;
}

header.compact .display-name {
    font-size: 14px;
}

header.compact .handle {
    font-size: 12px;
}

a.author {
    display: flex;
    align-items: center;
    gap: 12px;
    min-width: 0;
    text-decoration: none;
    color: inherit;
}

a.author:hover .display-name {
    text-decoration: underline;
}

.avatar {
    width: 48px;
    height: 48px;
    border-radius: 50%;
    object-fit: cover;
    background-color: var(--bg-secondary);
    transition: width 0.2s ease, height 0.2s ease;
}

.avatar-placeholder {
    width: 48px;
    height: 48px;
    border-radius: 50%;
    background-color: var(--accent-color);
    display: flex;
    align-items: center;
    justify-content: center;
    color: white;
    font-weight: bold;
    font-size: 18px;
    transition: width 0.2s ease, height 0.2s ease, font-size 0.2s ease;
}

.author-info {
    display: flex;
    flex-direction: column;
}

.display-name {
    font-weight: 600;
    font-size: 16px;
    transition: font-size 0.2s ease;
}

.handle {
    color: var(--text-secondary);
    transition: font-size 0.2s ease;
    font-size: 14px;
}

.thread {
    display: flex;
    flex-direction: column;
    gap: 0;
}

.post {
    padding: 8px 0;
}

.post-text {
    font-size: 16px;
    white-space: pre-wrap;
    word-wrap: break-word;
    line-height: 1.7;
}

.post-text a {
    color: var(--link-color);
    text-decoration: none;
}

.post-text a:hover {
    text-decoration: underline;
}

.post-meta {
    margin-top: 8px;
    font-size: 11px;
    color: var(--text-muted);
    display: flex;
    gap: 12px;
    opacity: 0.7;
    text-decoration: none;
    transition: opacity 0.15s ease;
}

.post-meta:hover {
    opacity: 1;
}

.post-meta time {
    color: var(--text-muted);
}

/* Embed styles */
.embed-images {
    margin-top: 12px;
    border-radius: 12px;
    overflow: hidden;
}

.embed-images.single .embed-image-link {
    display: block;
}

.embed-images.double {
    display: grid;
    grid-template-columns: 1fr 1fr;
    gap: 2px;
}

.embed-images.grid {
    display: grid;
    grid-template-columns: 1fr 1fr;
    gap: 2px;
}

.embed-image-link {
    display: block;
    line-height: 0;
}

.embed-image {
    width: 100%;
    height: auto;
    max-width: 75dvw;
    max-height: 75dvh;
    object-fit: cover;
    background-color: var(--bg-secondary);
}

.embed-images.single .embed-image {
    max-width: 75dvw;
    max-height: 75dvh;
    object-fit: contain;
}

.embed-video {
    margin-top: 12px;
    border-radius: 12px;
    overflow: hidden;
    background-color: var(--bg-secondary);
    max-width: 75dvw;
    max-height: 75dvh;
}

.embed-video video {
    width: 100%;
    height: 100%;
    max-width: 75dvw;
    max-height: 75dvh;
    display: block;
}

.embed-external {
    display: flex;
    margin-top: 12px;
    border: 1px solid var(--border-color);
    border-radius: 12px;
    overflow: hidden;
    text-decoration: none;
    color: inherit;
    transition: background-color 0.15s ease;
}

.embed-external:hover {
    background-color: var(--bg-secondary);
}

.external-thumb {
    width: 120px;
    height: 80px;
    object-fit: cover;
    flex-shrink: 0;
}

.external-info {
    padding: 10px 14px;
    min-width: 0;
}

.external-title {
    font-size: 14px;
    font-weight: 500;
    line-height: 1.3;
    overflow: hidden;
    text-overflow: ellipsis;
    white-space: nowrap;
}

.external-description {
    font-size: 12px;
    color: var(--text-secondary);
    margin-top: 2px;
    overflow: hidden;
    text-overflow: ellipsis;
    display: -webkit-box;
    -webkit-line-clamp: 2;
    -webkit-box-orient: vertical;
}

footer {
    margin-top: 24px;
    padding-top: 16px;
    border-top: 1px solid var(--border-color);
    font-size: 13px;
    color: var(--text-muted);
    text-align: center;
}

footer a {
    color: var(--link-color);
    text-decoration: none;
}

footer a:hover {
    text-decoration: underline;
}

/* Landing page styles */
.landing {
    display: flex;
    flex-direction: column;
    align-items: center;
    justify-content: center;
    min-height: calc(100vh - 200px);
    text-align: center;
    padding: 40px 20px;
}

.landing-title {
    font-size: 3rem;
    font-weight: 700;
    margin-bottom: 32px;
    color: var(--text-primary);
}

.landing-title .small {
    font-size: 0.25em;
    vertical-align: middle;
}

.landing-form {
    display: flex;
    gap: 8px;
    width: 100%;
    max-width: 500px;
    margin-bottom: 24px;
}

.landing-input {
    flex: 1;
    padding: 12px 16px;
    font-size: 16px;
    border: 1px solid var(--border-color);
    border-radius: 8px;
    background-color: var(--bg-secondary);
    color: var(--text-primary);
    outline: none;
    transition: border-color 0.15s ease;
}

.landing-input::placeholder {
    color: var(--text-muted);
}

.landing-input:focus {
    border-color: var(--accent-color);
}

.landing-button {
    padding: 12px 24px;
    font-size: 16px;
    font-weight: 500;
    border: none;
    border-radius: 8px;
    background-color: var(--accent-color);
    color: white;
    cursor: pointer;
    transition: opacity 0.15s ease;
}

.landing-button:hover {
    opacity: 0.9;
}

.landing-button:focus {
    outline: 2px solid var(--accent-color);
    outline-offset: 2px;
}

.landing-description {
    font-size: 16px;
    color: var(--text-secondary);
    max-width: 400px;
}

.landing-header {
    position: fixed;
    top: 0;
    right: 0;
    padding: 16px 20px;
    z-index: 100;
}

.home-link {
    display: flex;
    align-items: center;
    justify-content: center;
    width: 36px;
    height: 36px;
    border-radius: 50%;
    background-color: var(--bg-secondary);
    color: var(--text-secondary);
    text-decoration: none;
    transition: background-color 0.15s ease, color 0.15s ease;
    flex-shrink: 0;
}

.home-link:hover {
    background-color: var(--border-color);
    color: var(--text-primary);
}

.home-link svg {
    width: 18px;
    height: 18px;
}

.error-page {
    text-align: center;
    padding: 60px 20px;
}

.error-page h1 {
    font-size: 48px;
    margin-bottom: 16px;
    color: var(--text-secondary);
}

.error-page p {
    font-size: 18px;
    margin-bottom: 24px;
    color: var(--text-secondary);
}

.error-page a {
    color: var(--link-color);
    text-decoration: none;
    font-size: 16px;
}

.error-page a:hover {
    text-decoration: underline;
}

/* Streaming loading indicator */
.loading-indicator {
    padding: 20px;
    text-align: center;
    color: var(--text-muted);
    animation: pulse 1.5s ease-in-out infinite;
}

@keyframes pulse {
    0%, 100% { opacity: 0.6; }
    50% { opacity: 1; }
}

.stream-error {
    padding: 20px;
    text-align: center;
    color: var(--text-muted);
    background-color: var(--bg-secondary);
    border-radius: 8px;
    margin: 20px 0;
}

/* Theme toggle switch */
.theme-toggle {
    position: relative;
    width: 52px;
    height: 28px;
    background-color: var(--toggle-bg);
    border-radius: 14px;
    cursor: pointer;
    transition: background-color 0.2s ease;
    border: none;
    padding: 0;
    flex-shrink: 0;
}

.theme-toggle:focus {
    outline: 2px solid var(--accent-color);
    outline-offset: 2px;
}

.theme-toggle-knob {
    position: absolute;
    top: 3px;
    left: 3px;
    width: 22px;
    height: 22px;
    background-color: var(--toggle-knob);
    border-radius: 50%;
    transition: transform 0.2s ease;
    display: flex;
    align-items: center;
    justify-content: center;
    box-shadow: 0 1px 3px rgba(0, 0, 0, 0.2);
}

.theme-toggle-knob svg {
    width: 14px;
    height: 14px;
    color: var(--toggle-icon);
}

[data-theme="dark"] .theme-toggle-knob,
:root:not([data-theme="light"]) .theme-toggle-knob {
    transform: translateX(24px);
}

@media (prefers-color-scheme: light) {
    :root:not([data-theme="dark"]) .theme-toggle-knob {
        transform: translateX(0);
    }
}

@media (prefers-color-scheme: dark) {
    :root:not([data-theme="light"]) .theme-toggle-knob {
        transform: translateX(24px);
    }
}

/* Sun icon for light mode */
.icon-sun {
    display: block;
}

.icon-moon {
    display: none;
}

[data-theme="dark"] .icon-sun {
    display: none;
}

[data-theme="dark"] .icon-moon {
    display: block;
}

@media (prefers-color-scheme: dark) {
    :root:not([data-theme="light"]) .icon-sun {
        display: none;
    }
    :root:not([data-theme="light"]) .icon-moon {
        display: block;
    }
}

@media (prefers-color-scheme: light) {
    :root:not([data-theme="dark"]) .icon-sun {
        display: block;
    }
    :root:not([data-theme="dark"]) .icon-moon {
        display: none;
    }
}

[data-theme="light"] .icon-sun {
    display: block;
}

[data-theme="light"] .icon-moon {
    display: none;
}

/* Mobile responsive adjustments */
@media (max-width: 600px) {
    body {
        padding-top: 70px;
    }

    header {
        padding: 12px 16px;
    }

    header.compact {
        padding: 8px 16px;
    }

    .avatar {
        width: 40px;
        height: 40px;
    }

    .avatar-placeholder {
        width: 40px;
        height: 40px;
        font-size: 16px;
    }

    a.author {
        gap: 10px;
    }

    .author-info {
        max-width: 120px;
        overflow: hidden;
    }

    .display-name {
        font-size: 14px;
        white-space: nowrap;
        overflow: hidden;
        text-overflow: ellipsis;
    }

    .handle {
        font-size: 12px;
        white-space: nowrap;
        overflow: hidden;
        text-overflow: ellipsis;
    }

    .home-link {
        width: 32px;
        height: 32px;
    }

    .home-link svg {
        width: 16px;
        height: 16px;
    }

    .theme-toggle {
        width: 44px;
        height: 24px;
        border-radius: 12px;
    }

    .theme-toggle-knob {
        width: 18px;
        height: 18px;
    }

    .theme-toggle-knob svg {
        width: 12px;
        height: 12px;
    }

    [data-theme="dark"] .theme-toggle-knob,
    :root:not([data-theme="light"]) .theme-toggle-knob {
        transform: translateX(20px);
    }

    header.compact .avatar,
    header.compact .avatar-placeholder {
        width: 28px;
        height: 28px;
        font-size: 12px;
    }

    header.compact .display-name {
        font-size: 12px;
    }

    header.compact .handle {
        font-size: 10px;
    }
}

@media print {
    body {
        max-width: none;
        padding: 0;
        padding-top: 0;
    }

    header {
        position: static;
        border: none;
    }

    footer {
        border: none;
    }

    .embed-video {
        display: none;
    }

    .theme-toggle {
        display: none;
    }
}
"#;

/// Applies a stored theme before the page is painted.
pub const THEME_SCRIPT: &'static str = r#"
(function() {
    var stored = localStorage.getItem('theme');
    if (stored) {
        document.documentElement.setAttribute('data-theme', stored);
    }
})();
"#;

/// Runs the theme switch and the compact header.
pub const THEME_TOGGLE_SCRIPT: &'static str = r#"
(function() {
    var toggle = document.getElementById('theme-toggle');
    if (!toggle) return;

    function getEffectiveTheme() {
        var stored = localStorage.getItem('theme');
        if (stored) return stored;
        return window.matchMedia('(prefers-color-scheme: dark)').matches ? 'dark' : 'light';
    }

    function updateAriaChecked() {
        var isDark = getEffectiveTheme() === 'dark';
        toggle.setAttribute('aria-checked', isDark ? 'true' : 'false');
    }

    // Set initial aria-checked state
    updateAriaChecked();

    toggle.addEventListener('click', function() {
        var current = getEffectiveTheme();
        var next = current === 'dark' ? 'light' : 'dark';
        document.documentElement.setAttribute('data-theme', next);
        localStorage.setItem('theme', next);
        updateAriaChecked();
    });

    toggle.addEventListener('keydown', function(e) {
        if (e.key === 'Enter' || e.key === ' ') {
            e.preventDefault();
            toggle.click();
        }
    });
})();

// Sticky header compact mode on scroll
(function() {
    var header = document.querySelector('header');
    if (!header) return;

    var scrollThreshold = 50;
    var isCompact = false;

    function updateHeaderState() {
        var shouldBeCompact = window.scrollY > scrollThreshold;
        if (shouldBeCompact !== isCompact) {
            isCompact = shouldBeCompact;
            if (isCompact) {
                header.classList.add('compact');
            } else {
                header.classList.remove('compact');
            }
        }
    }

    window.addEventListener('scroll', updateHeaderState, { passive: true });
    updateHeaderState();
})();
"#;

/// PWA meta tags for manifest and mobile web app support.
pub const PWA_META_TAGS: &'static str = r##"
    <link rel="manifest" href="/manifest.webmanifest">
    <meta name="theme-color" content="#3b82f6">
    <meta name="apple-mobile-web-app-capable" content="yes">
    <meta name="apple-mobile-web-app-status-bar-style" content="default">
    <meta name="apple-mobile-web-app-title" content="Sklonger">
    <link rel="apple-touch-icon" href="/icon.svg">
"##;

/// Service worker registration script for PWA installability.
pub const SERVICE_WORKER_REGISTRATION: &'static str = r#"
if ('serviceWorker' in navigator) {
    navigator.serviceWorker.register('/sw.js').catch(function() {});
}
"#;

/// A page up to the language of its root element.
pub const PAGE_OPEN: &'static str = r#"<!DOCTYPE html>
<html lang=""#;

/// From the language to the title.
pub const HEAD_OPEN: &'static str = r#"">
<head>
    <meta charset="utf-8">
    <meta name="viewport" content="width=device-width, initial-scale=1">
    <title>"#;

/// From the title to the icon link.
pub const TITLE_CLOSE: &'static str = r#"</title>
    "#;

/// From the meta tags to the first script.
pub const SCRIPT_OPEN: &'static str = r#"
    <script>"#;

/// From the first script to the style sheet.
pub const STYLE_OPEN: &'static str = r#"</script>
    <style>"#;

/// From the style sheet to the body.
pub const BODY_OPEN: &'static str = r#"</style>
</head>
<body>
"#;

/// From the content to the last script.
pub const CLOSING_SCRIPT_OPEN: &'static str = r#"
<script>"#;

/// The end of a page.
pub const PAGE_CLOSE: &'static str = r#"</script>
</body>
</html>"#;

/// An icon link up to its address.
pub const FAVICON_OPEN: &'static str = r#"<link rel="icon" type="image/png" href=""#;

/// An avatar image up to its address.
pub const AVATAR_OPEN: &'static str = r#"<img class="avatar" src=""#;

/// From the address of an avatar to its description.
pub const AVATAR_ALT_OPEN: &'static str = r#"" alt=""#;

/// The end of the description of an avatar.
pub const AVATAR_CLOSE: &'static str = r#"'s avatar">"#;

/// A stand-in for an avatar up to its description.
pub const PLACEHOLDER_OPEN: &'static str = r#"<div class="avatar-placeholder" role="img" aria-label=""#;

/// The end of a stand-in for an avatar.
pub const PLACEHOLDER_CLOSE: &'static str = r#"</div>"#;

/// The header of a thread up to the address of the profile.
pub const HEADER_OPEN: &'static str = r#"<header>
    <a href="/" class="home-link" aria-label="Home">
        <svg xmlns="http://www.w3.org/2000/svg" viewBox="0 0 24 24" fill="currentColor" aria-hidden="true">
            <path d="M11.47 3.84a.75.75 0 011.06 0l8.69 8.69a.75.75 0 101.06-1.06l-8.689-8.69a2.25 2.25 0 00-3.182 0l-8.69 8.69a.75.75 0 001.061 1.06l8.69-8.69z" />
            <path d="M12 5.432l8.159 8.159c.03.03.06.058.091.086v6.198c0 1.035-.84 1.875-1.875 1.875H15a.75.75 0 01-.75-.75v-4.5a.75.75 0 00-.75-.75h-3a.75.75 0 00-.75.75V21a.75.75 0 01-.75.75H5.625a1.875 1.875 0 01-1.875-1.875v-6.198a2.29 2.29 0 00.091-.086L12 5.43z" />
        </svg>
    </a>
    <a href=""#;

/// From the address of the profile to the avatar.
pub const AUTHOR_OPEN: &'static str = r#"" class="author" target="_blank" rel="noopener">
        "#;

/// From the avatar to the display name.
pub const NAME_OPEN: &'static str = r#"
        <div class="author-info">
            <span class="display-name">"#;

/// From the display name to the handle.
pub const HANDLE_OPEN: &'static str = r#"</span>
            <span class="handle">@"#;

/// From the handle to the end of the header.
pub const HEADER_CLOSE: &'static str = r#"</span>
        </div>
    </a>
    <button id="theme-toggle" class="theme-toggle" type="button" aria-label="Toggle dark mode" role="switch" aria-checked="false">
        <span class="theme-toggle-knob" aria-hidden="true">
            <svg class="icon-sun" xmlns="http://www.w3.org/2000/svg" viewBox="0 0 24 24" fill="currentColor" aria-hidden="true">
                <path d="M12 2.25a.75.75 0 01.75.75v2.25a.75.75 0 01-1.5 0V3a.75.75 0 01.75-.75zM7.5 12a4.5 4.5 0 119 0 4.5 4.5 0 01-9 0zM18.894 6.166a.75.75 0 00-1.06-1.06l-1.591 1.59a.75.75 0 101.06 1.061l1.591-1.59zM21.75 12a.75.75 0 01-.75.75h-2.25a.75.75 0 010-1.5H21a.75.75 0 01.75.75zM17.834 18.894a.75.75 0 001.06-1.06l-1.59-1.591a.75.75 0 10-1.061 1.06l1.59 1.591zM12 18a.75.75 0 01.75.75V21a.75.75 0 01-1.5 0v-2.25A.75.75 0 0112 18zM7.758 17.303a.75.75 0 00-1.061-1.06l-1.591 1.59a.75.75 0 001.06 1.061l1.591-1.59zM6 12a.75.75 0 01-.75.75H3a.75.75 0 010-1.5h2.25A.75.75 0 016 12zM6.697 7.757a.75.75 0 001.06-1.06l-1.59-1.591a.75.75 0 00-1.061 1.06l1.59 1.591z" />
            </svg>
            <svg class="icon-moon" xmlns="http://www.w3.org/2000/svg" viewBox="0 0 24 24" fill="currentColor" aria-hidden="true">
                <path fill-rule="evenodd" d="M9.528 1.718a.75.75 0 01.162.819A8.97 8.97 0 009 6a9 9 0 009 9 8.97 8.97 0 003.463-.69.75.75 0 01.981.98 10.503 10.503 0 01-9.694 6.46c-5.799 0-10.5-4.701-10.5-10.5 0-4.368 2.667-8.112 6.46-9.694a.75.75 0 01.818.162z" clip-rule="evenodd" />
            </svg>
        </span>
    </button>
</header>
"#;

/// The opening of the list of posts.
pub const MAIN_OPEN: &'static str = r#"<main class="thread">
"#;

/// The end of the list of posts.
pub const MAIN_CLOSE: &'static str = r#"</main>
"#;

/// The footer of a thread up to the address of the original post.
pub const FOOTER_OPEN: &'static str = r#"<footer>
    <a href=""#;

/// From the address of the original post to the end of the footer.
pub const FOOTER_CLOSE: &'static str = r#"" target="_blank" rel="noopener">View original on Bluesky</a>
</footer>
"#;

/// The script that ends a streamed page, up to its shared part.
pub const STREAM_SCRIPT_OPEN: &'static str = r#"<script>
document.getElementById('loading-indicator')?.remove();
"#;

/// The end of a streamed page.
pub const STREAM_CLOSE: &'static str = r#"
</script>
</body>
</html>"#;

/// The body of the landing page.
pub const LANDING_CONTENT: &'static str = r#"<div class="landing-header">
    <button id="theme-toggle" class="theme-toggle" role="switch" aria-checked="false" aria-label="Toggle dark mode">
        <span class="theme-toggle-knob">
            <svg class="icon-sun" viewBox="0 0 24 24" fill="none" stroke="currentColor" stroke-width="2">
                <circle cx="12" cy="12" r="5"></circle>
                <line x1="12" y1="1" x2="12" y2="3"></line>
                <line x1="12" y1="21" x2="12" y2="23"></line>
                <line x1="4.22" y1="4.22" x2="5.64" y2="5.64"></line>
                <line x1="18.36" y1="18.36" x2="19.78" y2="19.78"></line>
                <line x1="1" y1="12" x2="3" y2="12"></line>
                <line x1="21" y1="12" x2="23" y2="12"></line>
                <line x1="4.22" y1="19.78" x2="5.64" y2="18.36"></line>
                <line x1="18.36" y1="5.64" x2="19.78" y2="4.22"></line>
            </svg>
            <svg class="icon-moon" viewBox="0 0 24 24" fill="none" stroke="currentColor" stroke-width="2">
                <path d="M21 12.79A9 9 0 1 1 11.21 3 7 7 0 0 0 21 12.79z"></path>
            </svg>
        </span>
    </button>
</div>
<main class="landing">
    <h1 class="landing-title">SK<span class="small">eet</span> LONGER</h1>
    <form class="landing-form" action="/" method="get">
        <input type="url" name="url" class="landing-input" placeholder="https://bsky.app/profile/.../post/..." required>
        <button type="submit" class="landing-button">Go</button>
    </form>
    <p class="landing-description">Paste a Bluesky post URL to view the full thread as a single, readable page.</p>
</main>"#;

/// An error page up to the status code.
pub const ERROR_OPEN: &'static str = r#"<main class="error-page">
    <h1>"#;

/// From the status code to the title.
pub const ERROR_TITLE_OPEN: &'static str = r#"</h1>
    <p>"#;

/// From the message to the end of an error page.
pub const ERROR_CLOSE: &'static str = r#"</p>
    <a href="/">Try another thread</a>
</main>"#;

/// The mark at the foot of a thread that is still loading.
pub const LOADING_INDICATOR: &'static str = r#"<div class="loading-indicator" id="loading-indicator">Loading more...</div>
"#;

/// The script that moves the loading mark below the post before it.
pub const INDICATOR_MOVER: &'static str = r#"<script>(function(){var l=document.getElementById('loading-indicator');if(l)l.parentNode.appendChild(l);})();</script>
"#;

/// The notice of an error in a streamed page, up to the message.
pub const STREAM_ERROR_OPEN: &'static str = r#"<div class="stream-error">
    <p>Error loading thread: "#;

/// From the message to the end of a page whose stream failed.
pub const STREAM_ERROR_CLOSE: &'static str = r#"</p>
</div>
</main>
<footer>
    <a href="/">Try another thread</a>
</footer>
<script>
document.getElementById('loading-indicator')?.remove();
</script>
</body>
</html>"#;

/// The upper-case form of a character, as the standard library gives it; it
/// may be more than one character long.
pub uninterp spec fn uppercase_of(c: char) -> Seq<char>;

/// Upper-cases with `char::to_uppercase`.
#[verifier::external_body]
fn to_uppercase(c: char) -> (r: String)
    ensures
        r@ == uppercase_of(c),
{
    c.to_uppercase().to_string()
}

/// The language of a page that names none.
pub const DEFAULT_LANG: &'static str = "en";

/// What a page may set besides its title and content.
pub struct TemplateOptions<'a> {
    /// The address of the page's icon.
    pub favicon_url: Option<&'a str>,
    /// The language of the page; English where `None`.
    pub lang: Option<&'a str>,
}

impl<'a> Default for TemplateOptions<'a> {
    fn default() -> (r: Self)
        ensures
            r.favicon_url is None,
            r.lang is None,
    {
        TemplateOptions { favicon_url: None, lang: None }
    }
}

/// The characters of an optional string slice.
pub open spec fn opt_str(s: Option<&str>) -> Option<Seq<char>> {
    match s {
        Some(t) => Some(t@),
        None => None,
    }
}

/// The icon link of a page; empty where the page has no icon.
pub open spec fn favicon_tag(url: Option<Seq<char>>) -> Seq<char> {
    match url {
        Some(url) => FAVICON_OPEN@ + attribute_escaped(url) + "\">"@,
        None => Seq::empty(),
    }
}

/// The language that a page declares.
pub open spec fn page_lang(lang: Option<Seq<char>>) -> Seq<char> {
    match lang {
        Some(lang) => lang,
        None => DEFAULT_LANG@,
    }
}

/// A page from its first character to the opening of its body: language,
/// title, icon, meta tags, theme script and style sheet. Title, language and
/// icon address are escaped.
pub open spec fn page_head(
    title: Seq<char>,
    favicon: Option<Seq<char>>,
    lang: Option<Seq<char>>,
) -> Seq<char> {
    PAGE_OPEN@ + attribute_escaped(page_lang(lang)) + HEAD_OPEN@ + text_escaped(title)
        + TITLE_CLOSE@ + favicon_tag(favicon) + PWA_META_TAGS@ + SCRIPT_OPEN@ + THEME_SCRIPT@
        + STYLE_OPEN@ + CSS_STYLES@ + BODY_OPEN@
}

/// A whole page around `content`, which is taken as HTML and not escaped.
pub open spec fn base_page(
    title: Seq<char>,
    content: Seq<char>,
    favicon: Option<Seq<char>>,
    lang: Option<Seq<char>>,
) -> Seq<char> {
    page_head(title, favicon, lang) + content + CLOSING_SCRIPT_OPEN@ + THEME_TOGGLE_SCRIPT@
        + SERVICE_WORKER_REGISTRATION@ + PAGE_CLOSE@
}

fn write_favicon_tag(url: Option<&str>) -> (r: String)
    ensures
        r@ == favicon_tag(opt_str(url)),
{
    match url {
        Some(url) => {
            let mut r = String::from_str(FAVICON_OPEN);
            r.append(encode_quoted_attribute(url).as_str());
            r.append("\">");
            r
        },
        None => String::new(),
    }
}

fn write_page_head(title: &str, favicon: Option<&str>, lang: Option<&str>) -> (r: String)
    ensures
        r@ == page_head(title@, opt_str(favicon), opt_str(lang)),
{
    let lang = match lang {
        Some(lang) => lang,
        None => DEFAULT_LANG,
    };
    let mut r = String::from_str(PAGE_OPEN);
    r.append(encode_quoted_attribute(lang).as_str());
    r.append(HEAD_OPEN);
    r.append(encode_text(title).as_str());
    r.append(TITLE_CLOSE);
    r.append(write_favicon_tag(favicon).as_str());
    r.append(PWA_META_TAGS);
    r.append(SCRIPT_OPEN);
    r.append(THEME_SCRIPT);
    r.append(STYLE_OPEN);
    r.append(CSS_STYLES);
    r.append(BODY_OPEN);
    r
}

/// A whole page with the given title around `content`.
pub fn base_template_with_options(title: &str, content: &str, options: TemplateOptions) -> (r:
    String)
    ensures
        r@ == base_page(title@, content@, opt_str(options.favicon_url), opt_str(options.lang)),
{
    let mut r = write_page_head(title, options.favicon_url, options.lang);
    r.append(content);
    r.append(CLOSING_SCRIPT_OPEN);
    r.append(THEME_TOGGLE_SCRIPT);
    r.append(SERVICE_WORKER_REGISTRATION);
    r.append(PAGE_CLOSE);
    r
}

/// A whole page in English, without an icon.
pub fn base_template(title: &str, content: &str) -> (r: String)
    ensures
        r@ == base_page(title@, content@, None, None),
{
    base_template_with_options(title, content, TemplateOptions { favicon_url: None, lang: None })
}

/// The title of the landing page.
pub const LANDING_TITLE: &'static str = "Skeet Longer - Bluesky Thread Reader";

/// The page that asks for the address of a post.
pub fn landing_page() -> (r: String)
    ensures
        r@ == base_page(LANDING_TITLE@, LANDING_CONTENT@, None, None),
{
    base_template(LANDING_TITLE, LANDING_CONTENT)
}

/// The page that reports an error: the status code in a heading, then title
/// and message, escaped. The page's own title is the code, ` - ` and the
/// title.
pub open spec fn error_page_of(status_code: u16, title: Seq<char>, message: Seq<char>) -> Seq<
    char,
> {
    base_page(
        decimal(status_code as nat) + " - "@ + title,
        ERROR_OPEN@ + decimal(status_code as nat) + ERROR_TITLE_OPEN@ + text_escaped(title) + ": "@
            + text_escaped(message) + ERROR_CLOSE@,
        None,
        None,
    )
}

/// The page that reports an error.
pub fn error_page(status_code: u16, title: &str, message: &str) -> (r: String)
    ensures
        r@ == error_page_of(status_code, title@, message@),
{
    let code = decimal_string(status_code as u64);
    let mut content = String::from_str(ERROR_OPEN);
    content.append(code.as_str());
    content.append(ERROR_TITLE_OPEN);
    content.append(encode_text(title).as_str());
    content.append(": ");
    content.append(encode_text(message).as_str());
    content.append(ERROR_CLOSE);
    let mut page_title = code;
    page_title.append(" - ");
    page_title.append(title);
    base_template(page_title.as_str(), content.as_str())
}

/// The name an author is shown under: the display name, or the handle where
/// there is none.
pub open spec fn shown_name(handle: Seq<char>, display_name: Option<Seq<char>>) -> Seq<char> {
    match display_name {
        Some(name) => name,
        None => handle,
    }
}

/// The letter that stands in for a missing avatar: the first character of
/// the name in upper case, `?` for an empty name.
pub open spec fn initial_of(name: Seq<char>) -> Seq<char> {
    if name.len() > 0 {
        uppercase_of(name[0])
    } else {
        uppercase_of('?')
    }
}

/// The avatar of an author: the image where there is one, else the initial
/// of the name.
pub open spec fn avatar_of(avatar_url: Option<Seq<char>>, name: Seq<char>) -> Seq<char> {
    match avatar_url {
        Some(url) => AVATAR_OPEN@ + attribute_escaped(url) + AVATAR_ALT_OPEN@ + attribute_escaped(
            name,
        ) + AVATAR_CLOSE@,
        None => PLACEHOLDER_OPEN@ + attribute_escaped(name) + AVATAR_CLOSE@ + initial_of(name)
            + PLACEHOLDER_CLOSE@,
    }
}

/// The header of a thread: home link, author with avatar, name and handle,
/// and the theme switch.
pub open spec fn header_of_thread(
    handle: Seq<char>,
    display_name: Option<Seq<char>>,
    avatar_url: Option<Seq<char>>,
    profile_url: Seq<char>,
) -> Seq<char> {
    HEADER_OPEN@ + attribute_escaped(profile_url) + AUTHOR_OPEN@ + avatar_of(
        avatar_url,
        shown_name(handle, display_name),
    ) + NAME_OPEN@ + text_escaped(shown_name(handle, display_name)) + HANDLE_OPEN@ + text_escaped(
        handle,
    ) + HEADER_CLOSE@
}

fn write_avatar(avatar_url: Option<&str>, name: &str) -> (r: String)
    ensures
        r@ == avatar_of(opt_str(avatar_url), name@),
{
    match avatar_url {
        Some(url) => {
            let mut r = String::from_str(AVATAR_OPEN);
            r.append(encode_quoted_attribute(url).as_str());
            r.append(AVATAR_ALT_OPEN);
            r.append(encode_quoted_attribute(name).as_str());
            r.append(AVATAR_CLOSE);
            r
        },
        None => {
            let first = if name.unicode_len() > 0 {
                name.get_char(0)
            } else {
                '?'
            };
            let mut r = String::from_str(PLACEHOLDER_OPEN);
            r.append(encode_quoted_attribute(name).as_str());
            r.append(AVATAR_CLOSE);
            r.append(to_uppercase(first).as_str());
            r.append(PLACEHOLDER_CLOSE);
            r
        },
    }
}

/// The header of a thread.
pub fn write_header(
    handle: &str,
    display_name: Option<&str>,
    avatar_url: Option<&str>,
    profile_url: &str,
) -> (r: String)
    ensures
        r@ == header_of_thread(handle@, opt_str(display_name), opt_str(avatar_url), profile_url@),
{
    let name = match display_name {
        Some(name) => name,
        None => handle,
    };
    let mut r = String::from_str(HEADER_OPEN);
    r.append(encode_quoted_attribute(profile_url).as_str());
    r.append(AUTHOR_OPEN);
    r.append(write_avatar(avatar_url, name).as_str());
    r.append(NAME_OPEN);
    r.append(encode_text(name).as_str());
    r.append(HANDLE_OPEN);
    r.append(encode_text(handle).as_str());
    r.append(HEADER_CLOSE);
    r
}

/// The title of the page of a thread. The handle is escaped here, and the
/// whole title once more where it is set into a page.
pub open spec fn thread_title(handle: Seq<char>) -> Seq<char> {
    "Thread by @"@ + text_escaped(handle) + " - skeet-longer"@
}

/// The title of the page of a thread.
pub fn write_thread_title(handle: &str) -> (r: String)
    ensures
        r@ == thread_title(handle@),
{
    let mut r = String::from_str("Thread by @");
    r.append(encode_text(handle).as_str());
    r.append(" - skeet-longer");
    r
}

/// What the opening of a streamed page shows.
pub struct StreamingHeadOptions<'a> {
    pub author_handle: &'a str,
    pub author_display_name: Option<&'a str>,
    pub avatar_url: Option<&'a str>,
    pub profile_url: &'a str,
    pub lang: Option<&'a str>,
}

/// The opening of a streamed page, sent as soon as the author is known: the
/// head of the page, with the avatar as its icon, the header of the thread,
/// and the opening of the list of posts.
pub open spec fn streaming_head_of(
    handle: Seq<char>,
    display_name: Option<Seq<char>>,
    avatar_url: Option<Seq<char>>,
    profile_url: Seq<char>,
    lang: Option<Seq<char>>,
) -> Seq<char> {
    page_head(thread_title(handle), avatar_url, lang) + header_of_thread(
        handle,
        display_name,
        avatar_url,
        profile_url,
    ) + MAIN_OPEN@
}

/// The opening of a streamed page.
pub fn streaming_head(options: StreamingHeadOptions) -> (r: String)
    ensures
        r@ == streaming_head_of(
            options.author_handle@,
            opt_str(options.author_display_name),
            opt_str(options.avatar_url),
            options.profile_url@,
            opt_str(options.lang),
        ),
{
    let title = write_thread_title(options.author_handle);
    let mut r = write_page_head(title.as_str(), options.avatar_url, options.lang);
    r.append(
        write_header(
            options.author_handle,
            options.author_display_name,
            options.avatar_url,
            options.profile_url,
        ).as_str(),
    );
    r.append(MAIN_OPEN);
    r
}

/// The footer of a thread, with the link to the original post.
pub open spec fn footer_of(original_post_url: Seq<char>) -> Seq<char> {
    FOOTER_OPEN@ + attribute_escaped(original_post_url) + FOOTER_CLOSE@
}

/// The footer of a thread.
pub fn write_footer(original_post_url: &str) -> (r: String)
    ensures
        r@ == footer_of(original_post_url@),
{
    let mut r = String::from_str(FOOTER_OPEN);
    r.append(encode_quoted_attribute(original_post_url).as_str());
    r.append(FOOTER_CLOSE);
    r
}

/// The end of a streamed page: the list of posts is closed, the footer
/// follows, and a script removes the loading mark.
pub open spec fn streaming_footer_of(original_post_url: Seq<char>) -> Seq<char> {
    MAIN_CLOSE@ + footer_of(original_post_url) + STREAM_SCRIPT_OPEN@ + THEME_TOGGLE_SCRIPT@
        + SERVICE_WORKER_REGISTRATION@ + STREAM_CLOSE@
}

/// The end of a streamed page.
pub fn streaming_footer(original_post_url: &str) -> (r: String)
    ensures
        r@ == streaming_footer_of(original_post_url@),
{
    let mut r = String::from_str(MAIN_CLOSE);
    r.append(write_footer(original_post_url).as_str());
    r.append(STREAM_SCRIPT_OPEN);
    r.append(THEME_TOGGLE_SCRIPT);
    r.append(SERVICE_WORKER_REGISTRATION);
    r.append(STREAM_CLOSE);
    r
}

/// The mark at the foot of a thread that is still loading.
pub fn streaming_loading_indicator() -> (r: &'static str)
    ensures
        r@ == LOADING_INDICATOR@,
{
    LOADING_INDICATOR
}

/// A post of a streamed page after the first: the post, then the script
/// that moves the loading mark below it.
pub fn streaming_post_before_indicator(post_html: &str) -> (r: String)
    ensures
        r@ == post_html@ + INDICATOR_MOVER@,
{
    let mut r = String::from_str(post_html);
    r.append(INDICATOR_MOVER);
    r
}

/// The end of a streamed page whose stream failed: the message, escaped,
/// and what closes the page.
pub fn streaming_error(message: &str) -> (r: String)
    ensures
        r@ == STREAM_ERROR_OPEN@ + text_escaped(message@) + STREAM_ERROR_CLOSE@,
{
    let mut r = String::from_str(STREAM_ERROR_OPEN);
    r.append(encode_text(message).as_str());
    r.append(STREAM_ERROR_CLOSE);
    r
}

} // verus!
