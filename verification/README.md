# yerkoku

A terminal program that turns JSON blueprints into AI development prompts:
pick a blueprint, fill in its form, search npm, crates.io or PyPI for package
versions, save drafts, and generate a Markdown prompt.

The library in `src/` is verified with Verus. It holds the form and its
editing (UTF-8 cursor handling included), the program state and what every
key and mouse event does to it, the draft records, the ordering of the menu
listings, the prompt text, the live preview, the layout arithmetic of the
screen, and the registry rules (names, URLs, status codes, error messages).
`src/laws.rs` states properties that span several operations.

`app/` is the terminal front end around it: command line, files, the event
loop, HTTP requests, the clipboard and drawing with ratatui.
