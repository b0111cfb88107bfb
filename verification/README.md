# mc-scraper

A scraper for an anime streaming site. It visits the site's browse pages,
the anime pages they link to and the episode pages of each anime, and
stores anime metadata, episodes and the video servers of each episode.
A page is scraped again only where the Adler-32 checksum of its body
differs from the stored one.

- `src/` is the library, verified with Verus: what is extracted from each
  page (`models`, `scraper`, `downloader`), how the page addresses and file
  names are built (`fetchers`, `downloader`), the checksum store and the
  decision whether a page needs scraping (`page_checksum`,
  `models::page_checksum`, `scraper::util`), and the text, HTML and URL
  helpers they rest on (`text`, `html`, `urls`, `checksum`).
- `app/` is the program around it: command line, database, network and
  files.
- `tests/` runs the library on concrete pages.
