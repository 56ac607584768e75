# peri_kit

The panels and popups of a terminal front end for a coding assistant, as a verified library.

- `src/` holds the decisions: what each key and click does, where rows stand on the screen,
  what is shown, and which request follows. Every function is stated by a contract over an
  abstract model and proved with Verus. What the surfaces promise as a whole stands beside
  them as public proof functions.
- `app/` is the ordinary Rust around it: terminal events, painting, requests to the agent,
  downloads, the clipboard, the editor and the browser.
- `tests/` runs the library on concrete values.

A surface is a small state with a transition: `handle_event` takes an input and gives whether
it was used up and what the program has to do. What is shown is a document of lines, each made
of literal text or of message keys that the program resolves in the language of the user.
