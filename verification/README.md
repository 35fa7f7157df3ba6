# retina_style_core

The style engine of a small web browser, verified with Verus.

- `src/` is the verified library: the CSS object model (`style`), a CSS
  tokenizer on top of `cssparser` (`tokenizer`, `syntax`), the grammars of
  values, selectors, declarations, `@font-face` blocks and stylesheets
  (`values`, `selectors`, `declarations`, `fontface`, `rules`), error
  markers (`error`), selector matching and specificity (`selector_match`,
  `specificity`), rule collection and the cascade (`collect`, `cascade`,
  `property_map`), the HTML legacy colour microsyntax (`util`), pixel lengths of HTML
  attributes (`lengths`), font
  loading state (`fonts`), the repaint state machine and page reactions
  (`page`), cursors and context menus (`cursor`), and crash reports
  (`crash`). Calls into `cssparser` and `url` go through a few trusted
  wrappers whose contracts name the outside results.
- `app/` holds what touches the outside world: logging of stylesheet
  errors, the channels between a page and its browser, reading source
  files for crash reports, and scrolling (floating point).
- `tests/` runs the library on concrete inputs.
